pub mod home;
pub mod mission_execution;
