//! Flying missions on a Crazyflie: the commands, and the decisions taken while they run.
pub mod command_unit;
pub mod crazyflie;
pub mod vehicle;
