//! The ops that SpatialOS delivers to a worker, and the decoding of the codes
//! by which the C API tags them.

use vstd::prelude::*;
use crate::worker::component::Component;
use crate::worker::entity::Entity;
use crate::worker::logging::LogLevel;
use crate::worker::{Authority, ComponentId, EntityId, RequestId};
use std::collections::HashMap;

verus! {

broadcast use vstd::std_specs::hash::group_hash_axioms;

/// Status codes of command and world-command responses in the C API.
pub const WORKER_STATUS_CODE_SUCCESS: u8 = 1;
pub const WORKER_STATUS_CODE_TIMEOUT: u8 = 2;
pub const WORKER_STATUS_CODE_NOT_FOUND: u8 = 3;
pub const WORKER_STATUS_CODE_AUTHORITY_LOST: u8 = 4;
pub const WORKER_STATUS_CODE_PERMISSION_DENIED: u8 = 5;
pub const WORKER_STATUS_CODE_APPLICATION_ERROR: u8 = 6;
pub const WORKER_STATUS_CODE_INTERNAL_ERROR: u8 = 7;

/// The outcome of a request: the response on success, else the kind of
/// failure with its message.
#[derive(Debug)]
pub enum StatusCode<T> {
    Success(T),
    Timeout(String),
    NotFound(String),
    AuthorityLost(String),
    PermissionDenied(String),
    ApplicationError(String),
    InternalError(String),
}

/// Whether `code` is a status code of the C API.
pub open spec fn is_status_code(code: u8) -> bool {
    WORKER_STATUS_CODE_SUCCESS <= code <= WORKER_STATUS_CODE_INTERNAL_ERROR
}

/// The outcome that a status code stands for, given the response that came
/// with a success and the message that came with a failure.
pub open spec fn status_of<T>(code: u8, success: T, message: String) -> StatusCode<T> {
    if code == WORKER_STATUS_CODE_SUCCESS {
        StatusCode::Success(success)
    } else if code == WORKER_STATUS_CODE_TIMEOUT {
        StatusCode::Timeout(message)
    } else if code == WORKER_STATUS_CODE_NOT_FOUND {
        StatusCode::NotFound(message)
    } else if code == WORKER_STATUS_CODE_AUTHORITY_LOST {
        StatusCode::AuthorityLost(message)
    } else if code == WORKER_STATUS_CODE_PERMISSION_DENIED {
        StatusCode::PermissionDenied(message)
    } else if code == WORKER_STATUS_CODE_APPLICATION_ERROR {
        StatusCode::ApplicationError(message)
    } else {
        StatusCode::InternalError(message)
    }
}

/// The code of an outcome in the C API: success 1, timeout 2, not found 3,
/// authority lost 4, permission denied 5, application error 6, internal
/// error 7.
pub open spec fn status_code_of<T>(status: StatusCode<T>) -> u8 {
    match status {
        StatusCode::Success(_) => 1,
        StatusCode::Timeout(_) => 2,
        StatusCode::NotFound(_) => 3,
        StatusCode::AuthorityLost(_) => 4,
        StatusCode::PermissionDenied(_) => 5,
        StatusCode::ApplicationError(_) => 6,
        StatusCode::InternalError(_) => 7,
    }
}

/// Decoding agrees with the C API's codes: every status code decodes to the
/// outcome with that code, carrying the response on success and the message
/// on failure; and an outcome decoded from its own code is the outcome
/// itself.
pub proof fn lemma_status_code_roundtrip<T>(code: u8, success: T, message: String, status: StatusCode<
    T,
>)
    ensures
        is_status_code(code) ==> status_code_of(status_of(code, success, message)) == code,
        status_of(code, success, message) matches StatusCode::Success(v) ==> v == success,
        !(status_of(code, success, message) is Success) ==> match status_of(
            code,
            success,
            message,
        ) {
            StatusCode::Success(_) => true,
            StatusCode::Timeout(m) => m == message,
            StatusCode::NotFound(m) => m == message,
            StatusCode::AuthorityLost(m) => m == message,
            StatusCode::PermissionDenied(m) => m == message,
            StatusCode::ApplicationError(m) => m == message,
            StatusCode::InternalError(m) => m == message,
        },
        match status {
            StatusCode::Success(v) => status_of(status_code_of(status), v, message) == status,
            StatusCode::Timeout(m) => status_of(status_code_of(status), success, m) == status,
            StatusCode::NotFound(m) => status_of(status_code_of(status), success, m) == status,
            StatusCode::AuthorityLost(m) => status_of(status_code_of(status), success, m) == status,
            StatusCode::PermissionDenied(m) => status_of(status_code_of(status), success, m)
                == status,
            StatusCode::ApplicationError(m) => status_of(status_code_of(status), success, m)
                == status,
            StatusCode::InternalError(m) => status_of(status_code_of(status), success, m) == status,
        },
{
}

impl<T> StatusCode<T> {
    /// Decodes the status code of a response: the response itself on success,
    /// else the failure with its message. Codes outside the C API's range are
    /// no status.
    pub fn from_code(code: u8, success: T, message: String) -> (res: Self)
        requires
            is_status_code(code),
        ensures
            res == status_of(code, success, message),
    {
        match code {
            1 => StatusCode::Success(success),
            2 => StatusCode::Timeout(message),
            3 => StatusCode::NotFound(message),
            4 => StatusCode::AuthorityLost(message),
            5 => StatusCode::PermissionDenied(message),
            6 => StatusCode::ApplicationError(message),
            _ => StatusCode::InternalError(message),
        }
    }

    /// Whether the request succeeded.
    pub fn is_success(&self) -> (res: bool)
        ensures
            res == (self is Success),
    {
        match self {
            StatusCode::Success(_) => true,
            _ => false,
        }
    }
}

/// The kinds of op that the C API delivers, in the order of their codes
/// (1 to 17).
#[derive(Debug, Copy, Clone, PartialEq, Eq, Structural)]
pub enum WorkerOpType {
    Disconnect,
    FlagUpdate,
    LogMessage,
    Metrics,
    CriticalSection,
    AddEntity,
    RemoveEntity,
    ReserveEntityIdsResponse,
    CreateEntityResponse,
    DeleteEntityResponse,
    EntityQueryResponse,
    AddComponent,
    RemoveComponent,
    AuthorityChange,
    ComponentUpdate,
    CommandRequest,
    CommandResponse,
}

/// Whether `code` is an op type of the C API.
pub open spec fn is_op_type_code(code: u8) -> bool {
    1 <= code <= 17
}

/// The op type that the C API encodes as `code`.
pub open spec fn op_type_of(code: u8) -> WorkerOpType {
    if code == 1 {
        WorkerOpType::Disconnect
    } else if code == 2 {
        WorkerOpType::FlagUpdate
    } else if code == 3 {
        WorkerOpType::LogMessage
    } else if code == 4 {
        WorkerOpType::Metrics
    } else if code == 5 {
        WorkerOpType::CriticalSection
    } else if code == 6 {
        WorkerOpType::AddEntity
    } else if code == 7 {
        WorkerOpType::RemoveEntity
    } else if code == 8 {
        WorkerOpType::ReserveEntityIdsResponse
    } else if code == 9 {
        WorkerOpType::CreateEntityResponse
    } else if code == 10 {
        WorkerOpType::DeleteEntityResponse
    } else if code == 11 {
        WorkerOpType::EntityQueryResponse
    } else if code == 12 {
        WorkerOpType::AddComponent
    } else if code == 13 {
        WorkerOpType::RemoveComponent
    } else if code == 14 {
        WorkerOpType::AuthorityChange
    } else if code == 15 {
        WorkerOpType::ComponentUpdate
    } else if code == 16 {
        WorkerOpType::CommandRequest
    } else {
        WorkerOpType::CommandResponse
    }
}

/// The code of an op type in the C API, in the order of the C API's op types:
/// disconnect 1, flag update 2, log message 3, metrics 4, critical section 5,
/// add entity 6, remove entity 7, reserve entity IDs response 8, create
/// entity response 9, delete entity response 10, entity query response 11,
/// add component 12, remove component 13, authority change 14, component
/// update 15, command request 16, command response 17.
pub open spec fn op_type_code(t: WorkerOpType) -> u8 {
    match t {
        WorkerOpType::Disconnect => 1,
        WorkerOpType::FlagUpdate => 2,
        WorkerOpType::LogMessage => 3,
        WorkerOpType::Metrics => 4,
        WorkerOpType::CriticalSection => 5,
        WorkerOpType::AddEntity => 6,
        WorkerOpType::RemoveEntity => 7,
        WorkerOpType::ReserveEntityIdsResponse => 8,
        WorkerOpType::CreateEntityResponse => 9,
        WorkerOpType::DeleteEntityResponse => 10,
        WorkerOpType::EntityQueryResponse => 11,
        WorkerOpType::AddComponent => 12,
        WorkerOpType::RemoveComponent => 13,
        WorkerOpType::AuthorityChange => 14,
        WorkerOpType::ComponentUpdate => 15,
        WorkerOpType::CommandRequest => 16,
        WorkerOpType::CommandResponse => 17,
    }
}

/// Decoding agrees with the C API's codes both ways: every op type is decoded
/// from its own code, and every code of the C API is the code of the op type
/// decoded from it.
pub proof fn lemma_op_type_code_roundtrip(t: WorkerOpType, code: u8)
    ensures
        is_op_type_code(op_type_code(t)),
        op_type_of(op_type_code(t)) == t,
        is_op_type_code(code) ==> op_type_code(op_type_of(code)) == code,
{
}

impl WorkerOpType {
    /// Decodes the type tag of an op of the C API. Codes outside the C API's
    /// range are no op type.
    pub fn from_code(code: u8) -> (res: Self)
        requires
            is_op_type_code(code),
        ensures
            res == op_type_of(code),
    {
        match code {
            1 => WorkerOpType::Disconnect,
            2 => WorkerOpType::FlagUpdate,
            3 => WorkerOpType::LogMessage,
            4 => WorkerOpType::Metrics,
            5 => WorkerOpType::CriticalSection,
            6 => WorkerOpType::AddEntity,
            7 => WorkerOpType::RemoveEntity,
            8 => WorkerOpType::ReserveEntityIdsResponse,
            9 => WorkerOpType::CreateEntityResponse,
            10 => WorkerOpType::DeleteEntityResponse,
            11 => WorkerOpType::EntityQueryResponse,
            12 => WorkerOpType::AddComponent,
            13 => WorkerOpType::RemoveComponent,
            14 => WorkerOpType::AuthorityChange,
            15 => WorkerOpType::ComponentUpdate,
            16 => WorkerOpType::CommandRequest,
            _ => WorkerOpType::CommandResponse,
        }
    }
}

/// A range of entity IDs that SpatialOS reserved for the worker, handed out
/// one by one in increasing order.
#[derive(Debug)]
pub struct ReservedEntityIdRange {
    current: i64,
    consumed: u32,
    reserved: u32,
}

impl ReservedEntityIdRange {
    /// The ID handed out next.
    pub closed spec fn next_id(&self) -> i64 {
        self.current
    }

    /// How many IDs are left to hand out.
    pub closed spec fn remaining(&self) -> nat {
        (self.reserved - self.consumed) as nat
    }

    /// The IDs left to hand out, in order.
    pub open spec fn remaining_ids(&self) -> Seq<i64> {
        Seq::new(self.remaining(), |i: int| (self.next_id() + i) as i64)
    }

    /// The range is well formed: it never hands out more IDs than it reserved.
    pub closed spec fn wf(&self) -> bool {
        self.consumed <= self.reserved
    }

    /// Whether every ID left can be handed out without passing `i64::MAX`.
    pub open spec fn fits(&self) -> bool {
        self.next_id() + self.remaining() <= i64::MAX
    }

    /// The range of the `number` IDs starting at `first`.
    pub closed spec fn spec_new(first: i64, number: u32) -> Self {
        ReservedEntityIdRange { current: first, consumed: 0, reserved: number }
    }

    /// One call of `next`: the range after it, and what it hands out.
    pub closed spec fn spec_next(self) -> (Self, Option<EntityId>) {
        if self.consumed == self.reserved {
            (self, None)
        } else {
            (
                ReservedEntityIdRange {
                    current: (self.current + 1) as i64,
                    consumed: (self.consumed + 1) as u32,
                    reserved: self.reserved,
                },
                Some(EntityId { id: self.current }),
            )
        }
    }

    /// The range after `k` calls of `next`.
    pub open spec fn after_calls(self, k: nat) -> Self
        decreases k,
    {
        if k == 0 {
            self
        } else {
            self.after_calls((k - 1) as nat).spec_next().0
        }
    }

    /// The `number` IDs starting at `first`.
    pub fn new(first: i64, number: u32) -> (res: Self)
        ensures
            res == Self::spec_new(first, number),
            res.wf(),
            res.next_id() == first,
            res.remaining() == number,
    {
        ReservedEntityIdRange { current: first, consumed: 0, reserved: number }
    }

    /// Hands out the next ID, or `None` once all are handed out.
    pub fn next(&mut self) -> (res: Option<EntityId>)
        requires
            old(self).wf(),
            old(self).remaining() > 0 ==> old(self).next_id() < i64::MAX,
        ensures
            final(self).wf(),
            (*final(self), res) == old(self).spec_next(),
            old(self).fits() ==> final(self).fits(),
            old(self).remaining() == 0 ==> res is None && *final(self) == *old(self),
            old(self).remaining() > 0 ==> {
                &&& res == Some(EntityId { id: old(self).next_id() })
                &&& final(self).next_id() == old(self).next_id() + 1
                &&& final(self).remaining() == old(self).remaining() - 1
            },
    {
        if self.consumed == self.reserved {
            return None;
        }
        self.consumed = self.consumed + 1;
        let res = Some(EntityId::new(self.current));
        self.current = self.current + 1;
        res
    }

    /// The number of IDs left to hand out.
    pub fn count(self) -> (res: usize)
        requires
            self.wf(),
        ensures
            res == self.remaining(),
    {
        (self.reserved - self.consumed) as usize
    }

    /// The IDs left to hand out, in order.
    pub fn collect_ids(self) -> (res: Vec<EntityId>)
        requires
            self.wf(),
            self.fits(),
        ensures
            res@.len() == self.remaining(),
            forall|i: int| 0 <= i < res@.len() ==> #[trigger] res@[i].id == self.remaining_ids()[i],
    {
        let mut range = self;
        let mut res: Vec<EntityId> = Vec::new();
        let ghost start = self;
        while range.consumed < range.reserved
            invariant
                range.wf(),
                range.fits(),
                res@.len() + range.remaining() == start.remaining(),
                range.next_id() == start.next_id() + res@.len(),
                forall|i: int| 0 <= i < res@.len() ==> #[trigger] res@[i].id == start.next_id() + i,
            decreases range.remaining(),
        {
            match range.next() {
                Some(id) => res.push(id),
                None => {},
            }
        }
        res
    }
}

/// A reserved range hands out its IDs in increasing order, one per call of
/// `next`, and `None` on every call once all are handed out: the call after
/// `k` calls gives `first + k` while `k < number`, and `None` from then on.
/// Each of these calls can be made, as no ID passes `i64::MAX`.
pub proof fn lemma_next_hands_out_in_order(first: i64, number: u32, k: nat)
    requires
        first + number <= i64::MAX,
    ensures
        ({
            let r = ReservedEntityIdRange::spec_new(first, number).after_calls(k);
            &&& r.wf()
            &&& r.fits()
            &&& r.spec_next().1 == if k < number {
                Some(EntityId { id: (first + k) as i64 })
            } else {
                None
            }
        }),
{
    lemma_after_calls_state(first, number, k);
}

/// The range after `k` calls of `next`: `min(k, number)` IDs handed out.
proof fn lemma_after_calls_state(first: i64, number: u32, k: nat)
    requires
        first + number <= i64::MAX,
    ensures
        ({
            let r = ReservedEntityIdRange::spec_new(first, number).after_calls(k);
            let m = if k < number { k } else { number as nat };
            &&& r.current == first + m
            &&& r.consumed == m
            &&& r.reserved == number
        }),
    decreases k,
{
    if k > 0 {
        lemma_after_calls_state(first, number, (k - 1) as nat);
    }
}

/// The connection was lost, for the reason given.
#[derive(Debug)]
pub struct DisconnectOp {
    pub reason: String,
}

/// A worker flag was set, changed or removed.
#[derive(Debug)]
pub struct FlagUpdateOp {
    pub name: String,
    pub value: String,
}

/// SpatialOS sent a message for the worker's log.
#[derive(Debug)]
pub struct LogMessageOp {
    pub message: String,
    pub log_level: LogLevel,
}

/// A critical section began or ended.
#[derive(Debug)]
pub struct CriticalSectionOp {
    pub in_critical_section: bool,
}

/// An entity entered the worker's view.
#[derive(Debug)]
pub struct AddEntityOp {
    pub entity_id: EntityId,
}

/// An entity left the worker's view.
#[derive(Debug)]
pub struct RemoveEntityOp {
    pub entity_id: EntityId,
}

/// The response to a request to reserve entity IDs.
#[derive(Debug)]
pub struct ReserveEntityIdsResponseOp {
    pub request_id: RequestId,
    pub status_code: StatusCode<ReservedEntityIdRange>,
}

/// The response to a request to create an entity.
#[derive(Debug)]
pub struct CreateEntityResponseOp {
    pub request_id: RequestId,
    pub status_code: StatusCode<EntityId>,
}

/// The response to a request to delete an entity.
#[derive(Debug)]
pub struct DeleteEntityResponseOp {
    pub request_id: RequestId,
    pub entity_id: EntityId,
    pub status_code: StatusCode<()>,
}

/// The result of an entity query: the matching entities by entity ID, or
/// only their number.
#[derive(Debug)]
pub enum QueryResponse<C> {
    Snapshot(HashMap<i64, Entity<C>>),
    Result(u32),
}

/// Whether no two components of an entity's list share an ID.
pub open spec fn distinct_component_ids<C>(components: Seq<(ComponentId, C)>) -> bool {
    components.map_values(|p: (ComponentId, C)| p.0).no_duplicates()
}

/// Whether `entity` holds exactly the components of the list `components`.
pub open spec fn holds_components<C>(entity: Entity<C>, components: Seq<(ComponentId, C)>) -> bool {
    &&& entity@.dom() == components.map_values(|p: (ComponentId, C)| p.0).to_set()
    &&& forall|i: int| 0 <= i < components.len() ==> #[trigger] entity@[components[i].0]
        == components[i].1
}

impl<C> QueryResponse<C> {
    /// Reads the result of an entity query: only the number of results when
    /// the query asked for a count (no result list), else each listed entity
    /// under its ID, a later entry with the same ID replacing an earlier one.
    /// An entity whose list holds two components with the same ID is no
    /// entity.
    pub fn from_results(
        result_count: u32,
        results: Option<Vec<(EntityId, Vec<(ComponentId, C)>)>>,
    ) -> (res: Self)
        requires
            results matches Some(list) ==> forall|i: int| 0 <= i < list@.len()
                ==> #[trigger] distinct_component_ids(list@[i].1@),
        ensures
            results is None ==> res == QueryResponse::<C>::Result(result_count),
            results matches Some(list) ==> res matches QueryResponse::Snapshot(map) && {
                &&& forall|e: i64| map@.contains_key(e) <==> exists|i: int|
                    0 <= i < list@.len() && #[trigger] list@[i].0.id == e
                &&& forall|i: int| 0 <= i < list@.len() && (forall|j: int| i < j < list@.len()
                    ==> list@[j].0.id != list@[i].0.id) ==> #[trigger] holds_components(
                    map@[list@[i].0.id],
                    list@[i].1@,
                )
            },
    {
        match results {
            None => QueryResponse::Result(result_count),
            Some(list) => {
                let ghost all = list@;
                let mut map: HashMap<i64, Entity<C>> = HashMap::new();
                for pair in it: list.into_iter()
                    invariant
                        it.seq() == all,
                        forall|i: int| 0 <= i < all.len() ==> #[trigger] distinct_component_ids(
                            all[i].1@,
                        ),
                        forall|e: i64| map@.contains_key(e) <==> exists|i: int|
                            0 <= i < it.index() && #[trigger] all[i].0.id == e,
                        forall|i: int| 0 <= i < it.index() && (forall|j: int| i < j < it.index()
                            ==> all[j].0.id != all[i].0.id) ==> #[trigger] holds_components(
                            map@[all[i].0.id],
                            all[i].1@,
                        ),
                {
                    let ghost k = it.index() as int;
                    let (entity_id, components) = pair;
                    let ghost comps = components@;
                    assert(comps == all[k].1@);
                    assert(distinct_component_ids(all[k].1@));
                    match Entity::from_components(components) {
                        Ok(entity) => {
                            map.insert(entity_id.id, entity);
                            proof {
                                assert(all[k].0.id == entity_id.id);
                                assert(holds_components(map@[entity_id.id], all[k].1@));
                            }
                        },
                        Err(_) => {},
                    }
                }
                QueryResponse::Snapshot(map)
            },
        }
    }
}

/// The response to an entity query.
#[derive(Debug)]
pub struct EntityQueryResponseOp<C> {
    pub request_id: RequestId,
    pub status_code: StatusCode<QueryResponse<C>>,
}

/// A component was added to an entity in the worker's view.
#[derive(Debug)]
pub struct AddComponentOp<C> {
    pub entity_id: EntityId,
    pub component_id: ComponentId,
    pub data: C,
}

/// A component was removed from an entity in the worker's view.
#[derive(Debug)]
pub struct RemoveComponentOp {
    pub entity_id: EntityId,
    pub component_id: ComponentId,
}

/// The worker's authority over a component of an entity changed.
#[derive(Debug)]
pub struct AuthorityChangeOp {
    pub entity_id: EntityId,
    pub component_id: ComponentId,
    pub authority: Authority,
}

/// A component of an entity in the worker's view was updated.
#[derive(Debug)]
pub struct ComponentUpdateOp<U> {
    pub entity_id: EntityId,
    pub component_id: ComponentId,
    pub update: U,
}

/// A command request arrived for a component the worker is authoritative
/// over.
#[derive(Debug)]
pub struct CommandRequestOp<Q> {
    pub request_id: RequestId,
    pub entity_id: EntityId,
    pub timeout_millis: u32,
    pub caller_worker_id: String,
    pub caller_attribute_set: Vec<String>,
    pub component_id: ComponentId,
    pub request: Q,
}

/// The response to a command request that the worker sent.
#[derive(Debug)]
pub struct CommandResponseOp<R> {
    pub request_id: RequestId,
    pub entity_id: EntityId,
    pub component_id: ComponentId,
    pub response: StatusCode<R>,
}

/// An op delivered by SpatialOS, with component data of type `C`.
pub enum WorkerOp<C: Component> {
    Disconnect(DisconnectOp),
    FlagUpdate(FlagUpdateOp),
    LogMessage(LogMessageOp),
    CriticalSection(CriticalSectionOp),
    AddEntity(AddEntityOp),
    RemoveEntity(RemoveEntityOp),
    AddComponent(AddComponentOp<C>),
    RemoveComponent(RemoveComponentOp),
    ComponentUpdate(ComponentUpdateOp<C::Update>),
    AuthorityChange(AuthorityChangeOp),
    CommandRequest(CommandRequestOp<C::CommandRequest>),
    CommandResponse(CommandResponseOp<C::CommandResponse>),
    ReserveEntityIdsResponse(ReserveEntityIdsResponseOp),
    CreateEntityResponse(CreateEntityResponseOp),
    DeleteEntityResponse(DeleteEntityResponseOp),
    EntityQueryResponse(EntityQueryResponseOp<C>),
}


/// A response decodes as a success exactly when its status code is the
/// success code; every failure keeps the message that came with it.
pub proof fn lemma_success_iff_success_code<T>(code: u8, success: T, message: String)
    requires
        is_status_code(code),
    ensures
        status_of(code, success, message) is Success <==> code == WORKER_STATUS_CODE_SUCCESS,
        status_of(code, success, message) == StatusCode::<T>::Success(success) <==> code
            == WORKER_STATUS_CODE_SUCCESS,
        code != WORKER_STATUS_CODE_SUCCESS ==> match status_of(code, success, message) {
            StatusCode::Success(_) => false,
            StatusCode::Timeout(m) => m == message,
            StatusCode::NotFound(m) => m == message,
            StatusCode::AuthorityLost(m) => m == message,
            StatusCode::PermissionDenied(m) => m == message,
            StatusCode::ApplicationError(m) => m == message,
            StatusCode::InternalError(m) => m == message,
        },
{
}

/// Distinct op type codes decode to distinct op types.
pub proof fn lemma_op_type_codes_distinct(a: u8, b: u8)
    requires
        is_op_type_code(a),
        is_op_type_code(b),
        a != b,
    ensures
        op_type_of(a) != op_type_of(b),
{
}

} // verus!
