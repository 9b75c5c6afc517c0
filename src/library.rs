//! The library service.
pub mod model;
pub mod payload;
