//! Well-known endpoints of SpatialOS.

use vstd::prelude::*;

verus! {

pub const LOCATOR_HOSTNAME: &'static str = "locator.improbable.io";

pub const LOCATOR_PORT: u16 = 444;

pub const RECEPTIONIST_PORT: u16 = 7777;

} // verus!
