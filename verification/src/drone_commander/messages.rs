//! The messages the commander's update takes.
use vstd::prelude::*;
use crate::drone_commander::model::Movement;
use crate::drone_control::command_unit::{Command, MissionStatus, Telemetry};
use crate::keys::KeyEvent;

verus! {

#[derive(Debug)]
pub enum Msg<F> {
    TelemetryUpdate(Telemetry<F>),
    Key(KeyEvent),
    Resize,
    Quit,
    ToHomeScreen,
    Home(NavigationMessage),
    MissionSelect(MissionSelectMessage<F>),
    MissionExecution(MissionExecutionMessage<F>),
    FreeFlight(FreeFlightMessage<F>),
}

#[derive(Debug)]
pub enum MissionSelectMessage<F> {
    MissionsLoaded(Vec<(String, Vec<Command<F>>)>, Vec<(String, Vec<Command<F>>)>),
    Nav(NavigationMessage),
    Selected(Vec<Command<F>>, String),
}

#[derive(Debug)]
pub enum MissionExecutionMessage<F> {
    StartMission,
    MissionResult,
    SafeLand,
    EmergencyAbort,
    MissionUpdate(MissionStatus<F>),
}

#[derive(Debug, Clone, Copy, PartialEq)]
pub enum FreeFlightMessage<F> {
    Move(Movement<F>),
    Abort,
    SendNextMove,
    CommandSet,
    TakeOffDone,
    StartRecording,
    StopRecording,
}

/// Moving through a list of choices, or choosing the highlighted one.
#[derive(Debug, Clone, Copy, PartialEq, Eq)]
pub enum NavigationMessage {
    Up,
    Down,
    Select,
}

} // verus!
