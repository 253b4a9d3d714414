//! The commands a mission is made of, and what the drone reports while it flies.
//!
//! Lengths, speeds and angles are carried in a number type `F` of the caller's choosing
//! (the drone link uses single-precision floats); the logic here only moves such values
//! around and never computes with them.
use vstd::prelude::*;
pub use crate::datalink::domain_types::{BatteryLevel, FlightMode, Meters, MetersPerSecond, Reason, Setpoint, TrajectoryId, Waypoint};

verus! {

/// How to stop a running mission.
#[derive(Debug, Clone, Copy, PartialEq, Eq)]
pub enum Abort {
    HardStop,
    Land,
}

/// A box to bounce around in, from its bottom-left to its top-right corner.
#[derive(Debug, Clone, Copy, PartialEq, Default)]
pub struct BilliardParams<F> {
    pub bl_x: Meters<F>,
    pub bl_y: Meters<F>,
    pub bl_z: Meters<F>,
    pub tr_x: Meters<F>,
    pub tr_y: Meters<F>,
    pub tr_z: Meters<F>,
    pub vx: MetersPerSecond<F>,
    pub vy: MetersPerSecond<F>,
    pub vz: MetersPerSecond<F>,
    pub hold_for: std::time::Duration,
}

/// A single high-level flight instruction; positions are relative to the takeoff point
/// unless a variant says otherwise.
#[derive(Debug, Clone, PartialEq)]
pub enum Command<F> {
    Takeoff { height: Meters<F>, duration: std::time::Duration },
    /// Move relative to the current position.
    Move { x: Meters<F>, y: Meters<F>, z: Meters<F>, duration: std::time::Duration },
    /// Move to a waypoint relative to the takeoff position.
    MoveToWaypoint { x: Meters<F>, y: Meters<F>, z: Meters<F>, duration: std::time::Duration },
    /// A smooth path through waypoints; the first one has to be the current position.
    SmoothPath { waypoints: Vec<Waypoint<F>>, speed: MetersPerSecond<F>, flight_mode: FlightMode },
    Setpoints { points: Vec<Setpoint<F>> },
    /// Bounce around in a box.
    BilliardBox(BilliardParams<F>),
    Orbit { radius: Meters<F>, orbital_period: std::time::Duration, orbits: usize, z: Meters<F> },
    Hover { duration: std::time::Duration },
    Land { duration: std::time::Duration },
}

impl<F> Command<F> {
    /// Whether this command can be flown as a trajectory stored on the drone: orbits and
    /// smooth paths can.
    pub fn can_upload_trajectory(&self) -> (can: bool)
        ensures
            can == (self is Orbit || self is SmoothPath),
    {
        match self {
            Command::Orbit { .. } | Command::SmoothPath { .. } => true,
            _ => false,
        }
    }
}

/// Where a mission's trajectories run: stored on the drone, or streamed to it.
#[derive(Debug, Clone, Copy, PartialEq, Eq, Default)]
pub enum LinkMode {
    OnVehicle,
    #[default]
    StreamToVehicle,
}

/// What a mission is doing, with the command it is at while it runs.
#[derive(Debug, Clone, PartialEq, Default)]
pub enum MissionStatus<F> {
    #[default]
    Idle,
    Running(Option<Progress<F>>),
    Aborted(Reason),
}

/// The command being flown, its position in the mission, and the mission's length.
#[derive(Debug, Clone, PartialEq)]
pub struct Progress<F> {
    pub current_command: Command<F>,
    pub command_num: usize,
    pub total_commands: usize,
}

/// The drone's state estimate and battery level.
#[derive(Debug, Clone, Copy, PartialEq, Default)]
pub struct Telemetry<F> {
    pub x: Meters<F>,
    pub y: Meters<F>,
    pub z: Meters<F>,
    pub x_v: MetersPerSecond<F>,
    pub y_v: MetersPerSecond<F>,
    pub yaw_degrees: F,
    pub battery_level: BatteryLevel,
}

impl<F> Telemetry<F> {
    /// Whether the battery is reported low.
    pub fn is_low_bat(&self) -> (low: bool)
        ensures
            low == (self.battery_level == BatteryLevel::Low),
    {
        matches!(self.battery_level, BatteryLevel::Low)
    }
}

impl<F: Copy> Telemetry<F> {
    pub fn x(&self) -> (r: F)
        ensures
            r == self.x.0,
    {
        self.x.0
    }

    pub fn y(&self) -> (r: F)
        ensures
            r == self.y.0,
    {
        self.y.0
    }

    pub fn z(&self) -> (r: F)
        ensures
            r == self.z.0,
    {
        self.z.0
    }

    pub fn vx(&self) -> (r: F)
        ensures
            r == self.x_v.0,
    {
        self.x_v.0
    }

    pub fn vy(&self) -> (r: F)
        ensures
            r == self.y_v.0,
    {
        self.y_v.0
    }

    pub fn yaw(&self) -> (r: F)
        ensures
            r == self.yaw_degrees,
    {
        self.yaw_degrees
    }
}

/// The battery level the drone's power state reports: low from state 3 on (low power,
/// shutting down), high below (on battery, charging, charged).
pub fn battery_level_of(power_state: i64) -> (level: BatteryLevel)
    ensures
        level == if power_state >= 3 { BatteryLevel::Low } else { BatteryLevel::High },
{
    if power_state >= 3 {
        BatteryLevel::Low
    } else {
        BatteryLevel::High
    }
}

/// Fly with these velocities at this height, turning at this rate.
#[derive(Debug, Clone, Copy, PartialEq, Default)]
pub struct SetpointHover<F> {
    pub vx: MetersPerSecond<F>,
    pub vy: MetersPerSecond<F>,
    pub z: Meters<F>,
    pub yaw_rate: F,
}

/// One instruction of manual flight.
#[derive(Debug, Clone, Copy, PartialEq)]
pub enum MotionCommand<F> {
    TakeOff(Meters<F>),
    Move(SetpointHover<F>),
    Land,
    GoHome,
    Stop,
}

} // verus!
