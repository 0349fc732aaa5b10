//! Post-quantum secure mesh messaging between a central drone and client devices.
use vstd::prelude::*;

pub mod bytes;
pub mod crypto;
pub mod device;
pub mod drone;
pub mod hexcodec;
pub mod json;
pub mod network;
pub mod text;

verus! {

/// Version of the library.
pub const VERSION: &'static str = "0.1.0";

/// Most devices the central drone serves at once.
pub const MAX_DEVICES: usize = 5;

} // verus!
