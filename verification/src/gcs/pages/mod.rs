pub mod home;
pub mod mission_monitor;
pub mod mission_select;
