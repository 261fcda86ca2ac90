//! A SpatialOS worker SDK core: entity and request identifiers, authority,
//! the op model delivered by the runtime, the local entity view, entity
//! construction and schema errors, with their behaviour proved by Verus.

pub mod ptr;
pub mod worker;
