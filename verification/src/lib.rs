//! Decision logic of a ground station for a Crazyflie nano-drone.
mod clock;
pub mod datalink;
pub mod drone_control;
pub mod keys;
pub mod drone_commander;
pub mod gcs;
