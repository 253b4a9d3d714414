//! The decisions a connected Crazyflie takes while it flies: which vehicle operation
//! each command becomes, how a mission ends, and what manual flight does on each event.
//! The operations themselves go over the radio; the caller performs them.
use vstd::prelude::*;
use crate::drone_control::command_unit::{
    Abort, BilliardParams, Command, FlightMode, LinkMode, Meters, MetersPerSecond, MissionStatus, MotionCommand,
    Progress, Reason, Setpoint, SetpointHover, Waypoint,
};

verus! {

/// A vehicle operation that carries out one command.
#[derive(Debug, PartialEq)]
pub enum VehicleAction<F> {
    TakeOff { height: Meters<F>, duration: std::time::Duration },
    /// Fly to a point, relative to the current position or to takeoff, heading north.
    GoTo { x: Meters<F>, y: Meters<F>, z: Meters<F>, duration: std::time::Duration, relative: bool },
    Land { duration: std::time::Duration },
    /// Hold position.
    Sleep { duration: std::time::Duration },
    BilliardLoop(BilliardParams<F>),
    /// Stream the smooth path setpoint by setpoint.
    StreamSmoothPath { waypoints: Vec<Waypoint<F>>, speed: MetersPerSecond<F>, flight_mode: FlightMode },
    /// Turn the smooth path into a trajectory, store it on the drone and fly it there.
    UploadSmoothPath { waypoints: Vec<Waypoint<F>>, speed: MetersPerSecond<F>, flight_mode: FlightMode },
    StreamSetpoints { points: Vec<Setpoint<F>> },
    /// Turn the orbit into a compressed trajectory, store it on the drone and fly it there.
    UploadOrbit { radius: Meters<F>, orbital_period: std::time::Duration, orbits: usize, z: Meters<F> },
    /// Stream the orbit setpoint by setpoint.
    StreamOrbit { radius: Meters<F>, orbital_period: std::time::Duration, orbits: usize, z: Meters<F> },
}

/// The operation for `command`: moves are relative, waypoints are not; smooth paths and
/// orbits are stored on the drone when the link mode says so, streamed otherwise.
pub open spec fn command_action<F>(command: Command<F>, link_mode: LinkMode) -> VehicleAction<F> {
    match command {
        Command::Takeoff { height, duration } => VehicleAction::TakeOff { height, duration },
        Command::Move { x, y, z, duration } => VehicleAction::GoTo { x, y, z, duration, relative: true },
        Command::MoveToWaypoint { x, y, z, duration } => VehicleAction::GoTo { x, y, z, duration, relative: false },
        Command::Land { duration } => VehicleAction::Land { duration },
        Command::Hover { duration } => VehicleAction::Sleep { duration },
        Command::BilliardBox(params) => VehicleAction::BilliardLoop(params),
        Command::SmoothPath { waypoints, speed, flight_mode } => match link_mode {
            LinkMode::StreamToVehicle => VehicleAction::StreamSmoothPath { waypoints, speed, flight_mode },
            LinkMode::OnVehicle => VehicleAction::UploadSmoothPath { waypoints, speed, flight_mode },
        },
        Command::Setpoints { points } => VehicleAction::StreamSetpoints { points },
        Command::Orbit { radius, orbital_period, orbits, z } => match link_mode {
            LinkMode::OnVehicle => VehicleAction::UploadOrbit { radius, orbital_period, orbits, z },
            LinkMode::StreamToVehicle => VehicleAction::StreamOrbit { radius, orbital_period, orbits, z },
        },
    }
}

/// The vehicle operation that carries out `command` in `link_mode`.
pub fn plan_command<F>(command: Command<F>, link_mode: LinkMode) -> (action: VehicleAction<F>)
    ensures
        action == command_action(command, link_mode),
{
    match command {
        Command::Takeoff { height, duration } => VehicleAction::TakeOff { height, duration },
        Command::Move { x, y, z, duration } => VehicleAction::GoTo { x, y, z, duration, relative: true },
        Command::MoveToWaypoint { x, y, z, duration } => VehicleAction::GoTo { x, y, z, duration, relative: false },
        Command::Land { duration } => VehicleAction::Land { duration },
        Command::Hover { duration } => VehicleAction::Sleep { duration },
        Command::BilliardBox(params) => VehicleAction::BilliardLoop(params),
        Command::SmoothPath { waypoints, speed, flight_mode } => match link_mode {
            LinkMode::StreamToVehicle => VehicleAction::StreamSmoothPath { waypoints, speed, flight_mode },
            LinkMode::OnVehicle => VehicleAction::UploadSmoothPath { waypoints, speed, flight_mode },
        },
        Command::Setpoints { points } => VehicleAction::StreamSetpoints { points },
        Command::Orbit { radius, orbital_period, orbits, z } => match link_mode {
            LinkMode::OnVehicle => VehicleAction::UploadOrbit { radius, orbital_period, orbits, z },
            LinkMode::StreamToVehicle => VehicleAction::StreamOrbit { radius, orbital_period, orbits, z },
        },
    }
}

/// The status reported while command `i` of a mission of `total` commands is flown.
pub open spec fn running_at<F>(command: Command<F>, i: int, total: int) -> MissionStatus<F> {
    MissionStatus::Running(Some(Progress { current_command: command, command_num: i as usize, total_commands: total as usize }))
}

/// The statuses a mission reports as it is flown, one before each command: running at
/// that command, with its position and the mission's length.
pub fn progress_statuses<F>(mission: Vec<Command<F>>) -> (statuses: Vec<MissionStatus<F>>)
    ensures
        statuses@.len() == mission@.len(),
        forall|i: int| 0 <= i < mission@.len() ==> #[trigger] statuses@[i] == running_at(mission@[i], i, mission@.len() as int),
{
    let total = mission.len();
    let ghost input = mission@;
    let mut statuses: Vec<MissionStatus<F>> = Vec::new();
    for c in it: mission
        invariant
            it.seq() == input,
            total == input.len(),
            statuses@.len() == it.index(),
            forall|i: int| 0 <= i < it.index() ==> #[trigger] statuses@[i] == running_at(input[i], i, total as int),
    {
        let i = statuses.len();
        statuses.push(MissionStatus::Running(Some(Progress { current_command: c, command_num: i, total_commands: total })));
    }
    statuses
}

/// How a running mission came to its end.
#[derive(Debug, Clone, Copy, PartialEq, Eq)]
pub enum MissionEnd {
    /// Every command was flown (or one of them failed).
    Completed,
    /// The pilot asked to stop.
    AbortRequested(Abort),
    /// The battery ran low.
    LowBattery,
}

/// What the drone does when a mission ends.
#[derive(Debug, Clone, Copy, PartialEq, Eq)]
pub enum EndAction {
    /// Nothing more to fly.
    Done,
    /// Cut the motors at once.
    EmergencyStop,
    /// Fly back above the takeoff point and land.
    ReturnHome,
}

/// The status reported when a mission ends this way: idle after the last command,
/// aborted (by hard stop, or landing) otherwise.
pub open spec fn end_status_reason(end: MissionEnd) -> Option<Reason> {
    match end {
        MissionEnd::Completed => None,
        MissionEnd::AbortRequested(Abort::HardStop) => Some(Reason::HardStop),
        MissionEnd::AbortRequested(Abort::Land) => Some(Reason::Landing),
        MissionEnd::LowBattery => Some(Reason::Landing),
    }
}

/// What to do when a mission ends this way, and the reason to report it aborted with
/// (none when it simply finished): a hard stop cuts the motors, a landing request or a
/// low battery brings the drone home.
pub fn end_mission(end: MissionEnd) -> (r: (EndAction, Option<Reason>))
    ensures
        r.1 == end_status_reason(end),
        r.0 == match end {
            MissionEnd::Completed => EndAction::Done,
            MissionEnd::AbortRequested(Abort::HardStop) => EndAction::EmergencyStop,
            _ => EndAction::ReturnHome,
        },
{
    match end {
        MissionEnd::Completed => (EndAction::Done, None),
        MissionEnd::AbortRequested(Abort::HardStop) => (EndAction::EmergencyStop, Some(Reason::HardStop)),
        MissionEnd::AbortRequested(Abort::Land) => (EndAction::ReturnHome, Some(Reason::Landing)),
        MissionEnd::LowBattery => (EndAction::ReturnHome, Some(Reason::Landing)),
    }
}

/// The setpoint manual flight repeats on every tick.
#[derive(Debug, Clone, Copy, PartialEq)]
pub enum Hold<F> {
    /// Nothing is repeated.
    Nothing,
    /// Hover in place at this height (the setpoint just after takeoff).
    HoverAt(Meters<F>),
    /// Repeat the last movement.
    Moving(SetpointHover<F>),
}

/// Something that happens during manual flight.
#[derive(Debug, Clone, Copy, PartialEq)]
pub enum FlyEvent<F> {
    /// The 10 ms tick.
    Tick,
    LowBattery,
    Motion(MotionCommand<F>),
    /// The pilot's commands ended.
    CommandsEnded,
}

/// A vehicle operation of manual flight.
#[derive(Debug, Clone, Copy, PartialEq)]
pub enum FlyAction<F> {
    Nothing,
    SendHover(Meters<F>),
    SendRelativeSpeed(SetpointHover<F>),
    ReturnHome,
    /// Hand back from the low-level commander, then land in two seconds.
    StopSetpointsAndLand,
    /// Take off to this height in two seconds.
    TakeOff(Meters<F>),
    EmergencyStop,
}

/// One step of manual flight: what to do, what to repeat from now on, and whether
/// manual flight goes on.
pub open spec fn fly_step<F>(hold: Hold<F>, event: FlyEvent<F>) -> (FlyAction<F>, Hold<F>, bool) {
    match event {
        FlyEvent::Tick => match hold {
            Hold::Nothing => (FlyAction::Nothing, hold, true),
            Hold::HoverAt(z) => (FlyAction::SendHover(z), hold, true),
            Hold::Moving(s) => (FlyAction::SendRelativeSpeed(s), hold, true),
        },
        FlyEvent::LowBattery => (FlyAction::ReturnHome, hold, false),
        FlyEvent::CommandsEnded => (if hold is Nothing { FlyAction::Nothing } else { FlyAction::ReturnHome }, hold, false),
        FlyEvent::Motion(MotionCommand::Land) => (FlyAction::StopSetpointsAndLand, Hold::Nothing, true),
        FlyEvent::Motion(MotionCommand::TakeOff(z)) => (FlyAction::TakeOff(z), Hold::HoverAt(z), true),
        FlyEvent::Motion(MotionCommand::Move(s)) => (FlyAction::SendRelativeSpeed(s), Hold::Moving(s), true),
        FlyEvent::Motion(MotionCommand::Stop) => (FlyAction::EmergencyStop, hold, false),
        FlyEvent::Motion(MotionCommand::GoHome) => (FlyAction::ReturnHome, Hold::Nothing, true),
    }
}

/// Decides one step of manual flight: repeat the held setpoint on every tick, go home on
/// a low battery or when the commands end (if anything was being flown), and follow the
/// pilot's commands.
pub fn fly_decide<F: Copy>(hold: &mut Hold<F>, event: FlyEvent<F>) -> (r: (FlyAction<F>, bool))
    ensures
        (r.0, *final(hold), r.1) == fly_step(*old(hold), event),
{
    match event {
        FlyEvent::Tick => match *hold {
            Hold::Nothing => (FlyAction::Nothing, true),
            Hold::HoverAt(z) => (FlyAction::SendHover(z), true),
            Hold::Moving(s) => (FlyAction::SendRelativeSpeed(s), true),
        },
        FlyEvent::LowBattery => (FlyAction::ReturnHome, false),
        FlyEvent::CommandsEnded => {
            let action = match *hold {
                Hold::Nothing => FlyAction::Nothing,
                _ => FlyAction::ReturnHome,
            };
            (action, false)
        },
        FlyEvent::Motion(MotionCommand::Land) => {
            *hold = Hold::Nothing;
            (FlyAction::StopSetpointsAndLand, true)
        },
        FlyEvent::Motion(MotionCommand::TakeOff(z)) => {
            *hold = Hold::HoverAt(z);
            (FlyAction::TakeOff(z), true)
        },
        FlyEvent::Motion(MotionCommand::Move(s)) => {
            *hold = Hold::Moving(s);
            (FlyAction::SendRelativeSpeed(s), true)
        },
        FlyEvent::Motion(MotionCommand::Stop) => (FlyAction::EmergencyStop, false),
        FlyEvent::Motion(MotionCommand::GoHome) => {
            *hold = Hold::Nothing;
            (FlyAction::ReturnHome, true)
        },
    }
}

} // verus!
