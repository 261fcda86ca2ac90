//! Identifiers, authority and status types shared by the worker API.

use vstd::prelude::*;
use crate::worker::utils::{push_signed_decimal, signed_decimal};
use vstd::std_specs::cmp::PartialOrdSpec;
use core::cmp::Ordering;

verus! {

/// The identifier of a component type.
pub type ComponentId = u32;

/// The index of a command within a component.
pub type CommandIndex = u32;

/// The identifier of an entity in a SpatialOS deployment.
#[derive(Debug, Copy, Clone, PartialEq, Eq, Structural, Hash, Ord, Default)]
pub struct EntityId {
    pub id: i64,
}

impl EntityId {
    pub fn new(id: i64) -> (res: EntityId)
        ensures
            res.id == id,
    {
        EntityId { id }
    }

    /// An entity ID is valid when it is strictly positive.
    pub fn is_valid(self) -> (res: bool)
        ensures
            res == (self.id > 0),
    {
        self.id > 0
    }

    /// The text `Entity ID <id>`.
    pub fn to_string(&self) -> (res: String)
        ensures
            res@ == "Entity ID "@ + signed_decimal(self.id as int),
    {
        let mut s = String::from_str("Entity ID ");
        push_signed_decimal(&mut s, self.id);
        s
    }
}

/// The three-way comparison of two identifiers.
pub open spec fn compare_ids(a: i64, b: i64) -> Ordering {
    if a < b {
        Ordering::Less
    } else if a == b {
        Ordering::Equal
    } else {
        Ordering::Greater
    }
}

impl PartialOrd for EntityId {
    /// Entity IDs are ordered by their numbers.
    fn partial_cmp(&self, other: &Self) -> (res: Option<Ordering>) {
        if self.id < other.id {
            Some(Ordering::Less)
        } else if self.id == other.id {
            Some(Ordering::Equal)
        } else {
            Some(Ordering::Greater)
        }
    }
}

impl vstd::std_specs::cmp::PartialOrdSpecImpl for EntityId {
    open spec fn obeys_partial_cmp_spec() -> bool {
        true
    }

    open spec fn partial_cmp_spec(&self, other: &Self) -> Option<Ordering> {
        Some(compare_ids(self.id, other.id))
    }
}

/// The identifier of a request sent to SpatialOS.
#[derive(Debug, Copy, Clone, PartialEq, Eq, Structural, Hash, Ord)]
pub struct RequestId {
    pub id: i64,
}

impl RequestId {
    pub fn new(id: i64) -> (res: Self)
        ensures
            res.id == id,
    {
        RequestId { id }
    }

    /// The text `Request ID <id>`.
    pub fn to_string(&self) -> (res: String)
        ensures
            res@ == "Request ID "@ + signed_decimal(self.id as int),
    {
        let mut s = String::from_str("Request ID ");
        push_signed_decimal(&mut s, self.id);
        s
    }
}

/// The authority a worker has over a component of an entity.
#[derive(Debug, Copy, Clone, PartialEq, Eq, Structural, Hash)]
pub enum Authority {
    Authoritative,
    AuthorityLossImminent,
    NotAuthoritative,
}

impl PartialOrd for RequestId {
    /// Request IDs are ordered by their numbers.
    fn partial_cmp(&self, other: &Self) -> (res: Option<Ordering>) {
        if self.id < other.id {
            Some(Ordering::Less)
        } else if self.id == other.id {
            Some(Ordering::Equal)
        } else {
            Some(Ordering::Greater)
        }
    }
}

impl vstd::std_specs::cmp::PartialOrdSpecImpl for RequestId {
    open spec fn obeys_partial_cmp_spec() -> bool {
        true
    }

    open spec fn partial_cmp_spec(&self, other: &Self) -> Option<Ordering> {
        Some(compare_ids(self.id, other.id))
    }
}

/// Entity IDs compare as their numbers do: equal exactly when the numbers
/// are, less exactly when the first number is smaller, greater exactly when it
/// is larger; and swapping the two IDs swaps less and greater.
pub proof fn lemma_entity_id_order(a: EntityId, b: EntityId)
    ensures
        a.partial_cmp_spec(&b) == Some(Ordering::Equal) <==> a.id == b.id,
        a.partial_cmp_spec(&b) == Some(Ordering::Less) <==> a.id < b.id,
        a.partial_cmp_spec(&b) == Some(Ordering::Greater) <==> a.id > b.id,
        a.partial_cmp_spec(&b) == Some(Ordering::Less) <==> b.partial_cmp_spec(&a) == Some(
            Ordering::Greater,
        ),
{
}

/// Request IDs compare as their numbers do: equal exactly when the numbers
/// are, less exactly when the first number is smaller, greater exactly when it
/// is larger; and swapping the two IDs swaps less and greater.
pub proof fn lemma_request_id_order(a: RequestId, b: RequestId)
    ensures
        a.partial_cmp_spec(&b) == Some(Ordering::Equal) <==> a.id == b.id,
        a.partial_cmp_spec(&b) == Some(Ordering::Less) <==> a.id < b.id,
        a.partial_cmp_spec(&b) == Some(Ordering::Greater) <==> a.id > b.id,
        a.partial_cmp_spec(&b) == Some(Ordering::Less) <==> b.partial_cmp_spec(&a) == Some(
            Ordering::Greater,
        ),
{
}

/// The authority state that the C API encodes as `code`.
pub open spec fn authority_of_code(code: u8) -> Authority {
    if code == 0 {
        Authority::NotAuthoritative
    } else if code == 1 {
        Authority::Authoritative
    } else {
        Authority::AuthorityLossImminent
    }
}

/// The code of an authority state in the C API: not authoritative 0,
/// authoritative 1, authority loss imminent 2.
pub open spec fn authority_code(authority: Authority) -> u8 {
    match authority {
        Authority::NotAuthoritative => 0,
        Authority::Authoritative => 1,
        Authority::AuthorityLossImminent => 2,
    }
}

/// Decoding agrees with the C API's codes both ways: every authority state is
/// decoded from its own code, and every code of the C API is the code of the
/// state decoded from it.
pub proof fn lemma_authority_code_roundtrip(authority: Authority, code: u8)
    ensures
        authority_code(authority) <= 2,
        authority_of_code(authority_code(authority)) == authority,
        code <= 2 ==> authority_code(authority_of_code(code)) == code,
{
}

impl Authority {
    /// A worker has authority unless it is `NotAuthoritative`; an imminent
    /// loss of authority still counts as having it.
    pub fn has_authority(self) -> (res: bool)
        ensures
            res == (self != Authority::NotAuthoritative),
    {
        self != Authority::NotAuthoritative
    }

    /// Decodes an authority state of the C API: 0 is not authoritative, 1 is
    /// authoritative and 2 is authority loss imminent. Other codes are not
    /// authority states.
    pub fn from(auth: u8) -> (res: Self)
        requires
            auth <= 2,
        ensures
            res == authority_of_code(auth),
    {
        match auth {
            0 => Authority::NotAuthoritative,
            1 => Authority::Authoritative,
            _ => Authority::AuthorityLossImminent,
        }
    }
}

/// An override of the worker's interest in a component.
pub struct InterestOverride {
    pub component_id: ComponentId,
    pub is_interested: bool,
}

impl InterestOverride {
    pub fn new(component_id: ComponentId, is_interested: bool) -> (res: Self)
        ensures
            res.component_id == component_id,
            res.is_interested == is_interested,
    {
        InterestOverride { component_id, is_interested }
    }
}

/// The outcome of connecting to SpatialOS.
#[derive(Copy, Clone, PartialEq, Eq, Structural, Debug)]
pub enum ConnectionStatusCode {
    Success,
    InternalError,
    InvalidArgument,
    NetworkError,
    Timeout,
    Cancelled,
    Rejected,
    PlayerIdentityTokenExpired,
    LoginTokenExpired,
    CapacityExceeded,
    RateExceeded,
    ServerShutdown,
}

} // verus!

pub mod commands;
pub mod component;
pub mod connection;
pub mod constants;
pub mod entity;
pub mod entity_builder;
pub mod locator;
pub mod logging;
pub mod metrics;
pub mod op;
pub mod parameters;
pub mod schema;
pub mod snapshot;
pub mod utils;
pub mod view;
pub mod worker_future;
