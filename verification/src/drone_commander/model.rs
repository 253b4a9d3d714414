//! What the commander shows and remembers, page by page.
//!
//! Lengths, speeds and angles are carried in a number type `F` of the caller's choosing;
//! the logic here only moves such values around and never computes with them.
use vstd::prelude::*;
use crate::drone_control::command_unit::{Command, Meters, MetersPerSecond, MissionStatus, Setpoint, Telemetry};

verus! {

#[derive(Debug)]
pub struct Model<F> {
    pub telemetry: Telemetry<F>,
    pub terminal_supports_enhancements: bool,
    pub exit: bool,
    pub state: State<F>,
}

#[derive(Debug)]
pub enum State<F> {
    Home(HomeState),
    MissionExecution(MissionExecutionState<F>),
    /// The mission library.
    MissionSelect(MissionSelectState<F>),
    MissionPlan(),
    /// Flying by hand.
    FreeFlight(FreeFlightState<F>),
}

/// The home page, with the first mode highlighted.
pub open spec fn home_state<F>() -> State<F> {
    State::Home(HomeState { selected_mode: ModeSelection::MissionSelectItem })
}

impl<F> State<F> {
    pub fn home() -> (s: Self)
        ensures
            s == home_state::<F>(),
    {
        State::Home(HomeState { selected_mode: ModeSelection::MissionSelectItem })
    }
}

impl<F> Model<F> {
    /// The start of the program: on the home page, not leaving.
    pub fn new(telemetry: Telemetry<F>, terminal_supports_enhancements: bool) -> (m: Self)
        ensures
            m.telemetry == telemetry,
            m.terminal_supports_enhancements == terminal_supports_enhancements,
            !m.exit,
            m.state == home_state::<F>(),
    {
        Model { telemetry, terminal_supports_enhancements, exit: false, state: State::home() }
    }
}

/// A change asked of a manual flight.
#[derive(Debug, Clone, Copy, PartialEq)]
pub enum Movement<F> {
    Vx(MetersPerSecond<F>),
    Vy(MetersPerSecond<F>),
    YawRate(F),
    Land,
    GoHome,
    Start,
    SpeedUp,
    SpeedDown,
}

/// One recorded position of a manual flight, to be replayed as a setpoint.
#[derive(Debug, Clone, Copy, PartialEq)]
pub struct SetpointRecording<F> {
    pub x: Meters<F>,
    pub y: Meters<F>,
    pub z: Meters<F>,
    pub yaw_degrees: F,
}

/// The setpoint that flies back to a recorded position.
pub open spec fn setpoint_of<F>(p: SetpointRecording<F>) -> Setpoint<F> {
    Setpoint::PositionPoint { x: p.x, y: p.y, z: p.z, yaw_degrees: p.yaw_degrees }
}

impl<F: Copy> SetpointRecording<F> {
    /// The setpoint that flies back to this position, facing the same way.
    pub fn to_setpoint(&self) -> (s: Setpoint<F>)
        ensures
            s == setpoint_of(*self),
    {
        Setpoint::PositionPoint { x: self.x, y: self.y, z: self.z, yaw_degrees: self.yaw_degrees }
    }
}

/// A manual flight: the motion asked for, whether the drone is up, the recording, and
/// the speeds the movement keys ask for.
#[derive(Debug)]
pub struct FreeFlightState<F> {
    pub vx: MetersPerSecond<F>,
    pub vy: MetersPerSecond<F>,
    pub yaw_rate: F,
    pub z: Meters<F>,
    pub is_airborne: bool,
    pub is_recording: bool,
    pub recording: Vec<SetpointRecording<F>>,
    pub speed_setting: MetersPerSecond<F>,
    pub yaw_rate_setting: F,
}

/// A mission page: the mission, its name, whether a running mission can still be
/// aborted, and the status the drone reports.
#[derive(Debug)]
pub struct MissionExecutionState<F> {
    pub mission: Vec<Command<F>>,
    pub name: String,
    /// A mission was started and no abort has been sent for it yet.
    pub abort_armed: bool,
    pub mission_status: MissionStatus<F>,
}

#[derive(Debug)]
pub struct HomeState {
    pub selected_mode: ModeSelection,
}

#[derive(Debug, Clone, Copy, PartialEq, Eq)]
pub enum ModeSelection {
    MissionSelectItem,
    MissionPlanItem,
    FreeFlightItem,
}

/// The position of a mode in the menu, from the top.
pub open spec fn mode_index(m: ModeSelection) -> int {
    match m {
        ModeSelection::MissionSelectItem => 0,
        ModeSelection::MissionPlanItem => 1,
        ModeSelection::FreeFlightItem => 2,
    }
}

/// The mode below `m`, the last wrapping round to the first.
pub open spec fn next_mode(m: ModeSelection) -> ModeSelection {
    match m {
        ModeSelection::MissionSelectItem => ModeSelection::MissionPlanItem,
        ModeSelection::MissionPlanItem => ModeSelection::FreeFlightItem,
        ModeSelection::FreeFlightItem => ModeSelection::MissionSelectItem,
    }
}

/// The mode above `m`, the first wrapping round to the last.
pub open spec fn prev_mode(m: ModeSelection) -> ModeSelection {
    match m {
        ModeSelection::MissionSelectItem => ModeSelection::FreeFlightItem,
        ModeSelection::MissionPlanItem => ModeSelection::MissionSelectItem,
        ModeSelection::FreeFlightItem => ModeSelection::MissionPlanItem,
    }
}

impl ModeSelection {
    /// The mode below this one, the last wrapping round to the first.
    pub fn next(&self) -> (n: Self)
        ensures
            n == next_mode(*self),
            mode_index(n) == (mode_index(*self) + 1) % 3,
    {
        match self {
            ModeSelection::MissionSelectItem => ModeSelection::MissionPlanItem,
            ModeSelection::MissionPlanItem => ModeSelection::FreeFlightItem,
            ModeSelection::FreeFlightItem => ModeSelection::MissionSelectItem,
        }
    }

    /// The mode above this one, the first wrapping round to the last.
    pub fn prev(&self) -> (p: Self)
        ensures
            p == prev_mode(*self),
            mode_index(p) == (mode_index(*self) + 2) % 3,
    {
        match self {
            ModeSelection::MissionSelectItem => ModeSelection::FreeFlightItem,
            ModeSelection::MissionPlanItem => ModeSelection::MissionSelectItem,
            ModeSelection::FreeFlightItem => ModeSelection::MissionPlanItem,
        }
    }
}

/// Going down then up, or up then down, comes back to the same mode; three steps the
/// same way come round to it too.
pub proof fn lemma_next_prev_inverse(m: ModeSelection)
    ensures
        prev_mode(next_mode(m)) == m,
        next_mode(prev_mode(m)) == m,
        next_mode(next_mode(next_mode(m))) == m,
        prev_mode(prev_mode(prev_mode(m))) == m,
{
}

/// The mission library: saved missions, then recorded flights, and the position of the
/// highlighted entry in both taken together.
#[derive(Debug)]
pub struct MissionSelectState<F> {
    pub missions: Vec<(String, Vec<Command<F>>)>,
    pub recorded_missions: Vec<(String, Vec<Command<F>>)>,
    pub selection: usize,
}

impl<F> MissionSelectState<F> {
    /// An empty library with the first entry highlighted.
    pub fn new() -> (s: Self)
        ensures
            s.missions@.len() == 0,
            s.recorded_missions@.len() == 0,
            s.selection == 0,
    {
        MissionSelectState { missions: Vec::new(), recorded_missions: Vec::new(), selection: 0 }
    }

    /// The saved missions followed by the recordings.
    pub open spec fn entries(&self) -> Seq<(String, Vec<Command<F>>)> {
        self.missions@ + self.recorded_missions@
    }

    /// Entry `index` of the saved missions followed by the recordings.
    pub fn entry(&self, index: usize) -> (e: &(String, Vec<Command<F>>))
        requires
            index < self.entries().len(),
        ensures
            *e == self.entries()[index as int],
    {
        if index < self.missions.len() {
            &self.missions[index]
        } else {
            &self.recorded_missions[index - self.missions.len()]
        }
    }
}

} // verus!
