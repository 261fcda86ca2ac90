//! The component types that user code defines, and parameters for sending
//! component updates.

use vstd::prelude::*;

verus! {

/// A component's data, as user code (usually generated from schema) defines
/// it: the types of its updates and of its command requests and responses,
/// and how an update merges into the data.
pub trait Component: Sized {
    type Update;
    type CommandRequest;
    type CommandResponse;

    /// The data after `update` has been merged into `self`.
    spec fn merged(self, update: Self::Update) -> Self;

    /// Merges `update` into the data.
    fn merge_update(&mut self, update: Self::Update)
        ensures
            *final(self) == old(self).merged(update),
    ;
}

/// Additional parameters for sending component updates. Loopback, disabled
/// by default, lets the update come back to the worker without being routed
/// through SpatialOS.
#[derive(Debug, Clone, Copy)]
pub struct UpdateParameters {
    loopback: bool,
}

impl Default for UpdateParameters {
    /// Parameters with loopback disabled.
    fn default() -> (res: Self)
        ensures
            !res.spec_loopback(),
    {
        UpdateParameters { loopback: false }
    }
}

impl UpdateParameters {
    /// Whether loopback short-circuiting is enabled.
    pub closed spec fn spec_loopback(&self) -> bool {
        self.loopback
    }

    /// Parameters with loopback disabled.
    pub fn new() -> (res: Self)
        ensures
            !res.spec_loopback(),
    {
        UpdateParameters { loopback: false }
    }

    /// Enables loopback short-circuiting for the component update message.
    pub fn allow_loopback(&mut self)
        ensures
            final(self).spec_loopback(),
    {
        self.loopback = true;
    }

    /// Whether loopback short-circuiting is enabled.
    pub fn loopback(&self) -> (res: bool)
        ensures
            res == self.spec_loopback(),
    {
        self.loopback
    }
}

} // verus!
