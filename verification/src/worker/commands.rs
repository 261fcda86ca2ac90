//! Parameters for sending command requests, and the world commands.

use vstd::prelude::*;
use crate::worker::entity::Entity;
use crate::worker::EntityId;

verus! {

/// Additional parameters for sending command requests. Short-circuiting,
/// disabled by default, lets a command that the worker sends to itself skip
/// being routed through SpatialOS.
#[derive(Debug, Clone, Copy, PartialEq, Eq, Structural, Hash)]
pub struct CommandParameters {
    allow_short_circuit: bool,
}

impl Default for CommandParameters {
    /// Parameters with short-circuiting disallowed.
    fn default() -> (res: Self)
        ensures
            !res.spec_allow_short_circuit(),
    {
        CommandParameters { allow_short_circuit: false }
    }
}

impl CommandParameters {
    /// Whether short-circuiting is allowed.
    pub closed spec fn spec_allow_short_circuit(&self) -> bool {
        self.allow_short_circuit
    }

    /// Parameters with short-circuiting disallowed.
    pub fn new() -> (res: CommandParameters)
        ensures
            !res.spec_allow_short_circuit(),
    {
        CommandParameters { allow_short_circuit: false }
    }

    /// Sets the `allow_short_circuit` parameter to `true`.
    pub fn allow_short_circuit(&mut self)
        ensures
            final(self).spec_allow_short_circuit(),
    {
        self.allow_short_circuit = true;
    }

    /// Whether short-circuiting is allowed.
    pub fn short_circuit_allowed(&self) -> (res: bool)
        ensures
            res == self.spec_allow_short_circuit(),
    {
        self.allow_short_circuit
    }
}

/// A request for a block of this many fresh entity IDs.
#[derive(Debug)]
pub struct ReserveEntityIdsRequest(pub u32);

/// A request to create the entity, under the given ID if there is one.
#[derive(Debug)]
pub struct CreateEntityRequest<C>(pub Entity<C>, pub Option<EntityId>);

/// A request to delete the entity with this ID.
#[derive(Debug)]
pub struct DeleteEntityRequest(pub EntityId);

} // verus!
