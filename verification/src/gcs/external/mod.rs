//! What the station fetches from, and stores in, the world outside.
pub mod mission_service;
