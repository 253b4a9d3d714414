//! The ground-control station: pages and key handling.
pub mod config;
pub mod external;
pub mod pages;
pub mod program;
