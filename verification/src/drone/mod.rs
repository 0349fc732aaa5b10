//! The central drone that relays between devices.
pub mod central_drone;
