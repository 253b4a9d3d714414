//! The vocabulary that travels between the ground station and the vehicle.
//!
//! Lengths, speeds and angles are carried in a number type `F` of the caller's choosing
//! (the ground station uses single-precision floats); the logic here only moves such
//! values around and never computes with them.
use vstd::prelude::*;

verus! {

/// `Duration` is `Copy`; its `clone` (std's `impl Clone for Duration`) gives back the
/// same duration.
pub assume_specification[ <std::time::Duration as Clone>::clone ](d: &std::time::Duration) -> (r: std::time::Duration)
    ensures
        r == *d,
;

/// The duration of `secs` whole seconds, as `Duration::from_secs` makes it.
pub uninterp spec fn duration_from_secs(secs: u64) -> std::time::Duration;

/// std's `Duration::from_secs`: a pure constructor, so the same number of seconds always
/// gives the same duration (named by `duration_from_secs`); it never panics.
pub assume_specification[ std::time::Duration::from_secs ](secs: u64) -> (d: std::time::Duration)
    ensures
        d == duration_from_secs(secs),
;

/// A length in metres.
#[derive(Debug, Clone, Copy, PartialEq, Default)]
pub struct Meters<F>(pub F);

/// A speed in metres per second.
#[derive(Debug, Clone, Copy, PartialEq, Default)]
pub struct MetersPerSecond<F>(pub F);

#[derive(Debug, Clone, Copy, PartialEq, Eq, Hash, Default)]
pub enum BatteryLevel {
    Low,
    #[default]
    High,
}

#[derive(Debug, Clone, Copy, PartialEq, Eq, Default)]
pub struct VehicleHealth {
    pub battery_level: BatteryLevel,
}

impl VehicleHealth {
    /// Whether the battery is reported low.
    pub fn is_low_bat(&self) -> (low: bool)
        ensures
            low == (self.battery_level == BatteryLevel::Low),
    {
        matches!(self.battery_level, BatteryLevel::Low)
    }
}

/// The vehicle's state estimate and the distances its range sensors measure.
#[derive(Debug, Clone, Copy, PartialEq, Default)]
pub struct Telemetry<F> {
    pub x: Meters<F>,
    pub y: Meters<F>,
    pub z: Meters<F>,
    pub x_v: MetersPerSecond<F>,
    pub y_v: MetersPerSecond<F>,
    pub yaw_degrees: F,
    pub range_front: Meters<F>,
    pub range_back: Meters<F>,
    pub range_right: Meters<F>,
    pub range_left: Meters<F>,
    pub range_up: Meters<F>,
}

impl<F: Copy> Telemetry<F> {
    pub fn x(&self) -> (r: F)
        ensures
            r == self.x.0,
    {
        self.x.0
    }

    pub fn y(&self) -> (r: F)
        ensures
            r == self.y.0,
    {
        self.y.0
    }

    pub fn z(&self) -> (r: F)
        ensures
            r == self.z.0,
    {
        self.z.0
    }

    pub fn vx(&self) -> (r: F)
        ensures
            r == self.x_v.0,
    {
        self.x_v.0
    }

    pub fn vy(&self) -> (r: F)
        ensures
            r == self.y_v.0,
    {
        self.y_v.0
    }

    pub fn yaw(&self) -> (r: F)
        ensures
            r == self.yaw_degrees,
    {
        self.yaw_degrees
    }
}

/// One cell of the occupancy map: the log-odds that it is taken.
#[derive(Debug, Clone, Copy, PartialEq, Default)]
pub struct Cell<F> {
    pub ln_ods: F,
}

/// Why a mission stopped before its end.
#[derive(Debug, Clone, Copy, PartialEq, Eq)]
pub enum Reason {
    Landing,
    HardStop,
    LowBattery,
}

/// What a mission is doing, with the step it is at while it runs.
#[derive(Debug, Clone, PartialEq, Default)]
pub enum MissionStatus {
    #[default]
    Idle,
    Running(Option<Progress>),
    Aborted(Reason),
}

#[derive(Debug, Clone, PartialEq)]
pub struct Progress {
    pub current_command: String,
    pub command_num: usize,
    pub total_commands: usize,
}

#[derive(Debug, Clone, Copy, PartialEq, Default)]
pub struct Waypoint<F> {
    pub x: Meters<F>,
    pub y: Meters<F>,
    pub z: Meters<F>,
}

#[derive(Debug, Clone, Copy, PartialEq, Eq, Hash)]
pub enum FlightMode {
    Strafe,
    BodyFrame,
}

/// The number under which a trajectory was stored on the vehicle.
#[derive(Debug, Clone, Copy, PartialEq, Eq, PartialOrd, Ord, Hash, Default)]
pub struct TrajectoryId(pub u8);

/// A box to bounce around in, from its bottom-left to its top-right corner.
#[derive(Debug, Clone, Copy, PartialEq, Default)]
pub struct BilliardParams<F> {
    pub bl_x: Meters<F>,
    pub bl_y: Meters<F>,
    pub bl_z: Meters<F>,
    pub tr_x: Meters<F>,
    pub tr_y: Meters<F>,
    pub tr_z: Meters<F>,
    pub vx: MetersPerSecond<F>,
    pub vy: MetersPerSecond<F>,
    pub vz: MetersPerSecond<F>,
    pub hold_for: std::time::Duration,
}

/// A single target for the low-level commander: a velocity in the body frame, or a
/// position relative to takeoff.
#[derive(Debug, Clone, Copy, PartialEq)]
pub enum Setpoint<F> {
    VelocityPoint { vx: MetersPerSecond<F>, vy: MetersPerSecond<F>, vz: MetersPerSecond<F>, yaw_rate: F },
    PositionPoint { x: Meters<F>, y: Meters<F>, z: Meters<F>, yaw_degrees: F },
}

/// A single high-level flight instruction; positions are relative to the takeoff point
/// unless a variant says otherwise.
#[derive(Debug, PartialEq)]
pub enum MissionItem<F> {
    Takeoff { height: Meters<F>, duration: std::time::Duration },
    /// Move relative to the current position.
    Move { x: Meters<F>, y: Meters<F>, z: Meters<F>, duration: std::time::Duration },
    /// Move to a waypoint relative to the takeoff position.
    MoveToWaypoint { x: Meters<F>, y: Meters<F>, z: Meters<F>, duration: std::time::Duration },
    /// A smooth path through waypoints; the first one has to be the current position.
    SmoothPath { waypoints: Vec<Waypoint<F>>, speed: MetersPerSecond<F>, flight_mode: FlightMode },
    Setpoints { points: Vec<Setpoint<F>> },
    /// Bounce around in a box.
    BilliardBox(BilliardParams<F>),
    Orbit { radius: Meters<F>, orbital_period: std::time::Duration, orbits: usize, z: Meters<F> },
    Hover { duration: std::time::Duration },
    Land { duration: std::time::Duration },
    /// A trajectory already stored on the vehicle, standing for the item it was made from.
    OnVehicleTrajectory { id: TrajectoryId, duration: std::time::Duration, original_command: Box<MissionItem<F>> },
}

impl<F> MissionItem<F> {
    /// Whether this item can be turned into a trajectory stored on the vehicle: orbits
    /// and smooth paths can.
    pub fn can_upload_trajectory(&self) -> (can: bool)
        ensures
            can == (self is Orbit || self is SmoothPath),
    {
        match self {
            MissionItem::Orbit { .. } | MissionItem::SmoothPath { .. } => true,
            _ => false,
        }
    }
}

/// How to stop a running mission.
#[derive(Debug, Clone, Copy, PartialEq, Eq)]
pub enum Abort {
    FlightTermination,
    Land,
}

} // verus!
