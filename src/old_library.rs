//! The first library service, kept for older clients.
pub mod model;
pub mod payload;
