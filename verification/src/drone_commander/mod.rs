//! The terminal commander: its model, messages and update.
pub mod app;
pub mod config;
pub mod dev_unit;
pub mod messages;
pub mod model;
pub mod pages;
pub mod program;
pub mod recording;
pub mod update;
