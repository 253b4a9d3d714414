//! A stand-in for the drone, for working on the commander without one: it reports a
//! mission running through a few commands, over and over.
use vstd::prelude::*;
use crate::drone_control::command_unit::{Command, MissionStatus};
use crate::drone_control::crazyflie::{progress_statuses, running_at};

verus! {

/// The stand-in drone.
#[derive(Debug, Clone, Copy, PartialEq, Eq)]
pub struct DevUnit;

impl DevUnit {
    /// The statuses one pass over `commands` reports, in order: running at each command
    /// in turn, then idle.
    pub fn mission_statuses<F>(commands: Vec<Command<F>>) -> (statuses: Vec<MissionStatus<F>>)
        ensures
            statuses@.len() == commands@.len() + 1,
            forall|i: int| 0 <= i < commands@.len() ==> #[trigger] statuses@[i] == running_at(commands@[i], i, commands@.len() as int),
            statuses@[commands@.len() as int] == MissionStatus::<F>::Idle,
    {
        let mut statuses = progress_statuses(commands);
        statuses.push(MissionStatus::Idle);
        statuses
    }
}

} // verus!
