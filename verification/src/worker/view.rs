//! The worker's local view of the SpatialOS world: the entities it sees, the
//! data and authority of their components, and what changed since the view
//! was last cleared.

use vstd::prelude::*;
use vstd::view::View as _;
use vstd::std_specs::iter::IteratorSpec;
use std::collections::{HashMap, HashSet};
use crate::worker::component::Component;
use crate::worker::op::{
    AddComponentOp, AddEntityOp, RemoveEntityOp, AuthorityChangeOp, CommandRequestOp, CommandResponseOp, ComponentUpdateOp,
    RemoveComponentOp, StatusCode, WorkerOp,
};
use crate::worker::{Authority, ComponentId, EntityId, RequestId};

verus! {

broadcast use {vstd::std_specs::hash::group_hash_axioms, vstd::seq_lib::group_seq_properties};

/// The abstract state of a view. Entities are named by their `EntityId`'s
/// `id`.
pub struct ViewModel<C: Component> {
    /// The component types the view tracks.
    pub components: Set<ComponentId>,
    /// The entities in the view.
    pub entities: Set<i64>,
    /// The entities added since the view was last cleared.
    pub added: Set<i64>,
    /// The entities removed since the view was last cleared.
    pub removed: Set<i64>,
    /// The data of each component type, by entity.
    pub data: Map<ComponentId, Map<i64, C>>,
    /// The worker's authority over each component type, by entity.
    pub authority: Map<ComponentId, Map<i64, Authority>>,
    /// The entities whose component of each type was updated since the view
    /// was last cleared, in the order of the updates.
    pub updated: Map<ComponentId, Seq<i64>>,
    /// The command requests received for each component type since the view
    /// was last cleared, by entity, in the order received.
    pub requests: Map<ComponentId, Map<i64, Seq<(RequestId, C::CommandRequest)>>>,
    /// The command responses received for each component type since the view
    /// was last cleared, by entity, in the order received.
    pub responses: Map<ComponentId, Map<i64, Seq<(RequestId, StatusCode<C::CommandResponse>)>>>,
}

/// The requests or responses pending for entity `e` in `m`: none when `m` has
/// no entry for `e`.
pub open spec fn pending<T>(m: Map<i64, Seq<T>>, e: i64) -> Seq<T> {
    if m.contains_key(e) {
        m[e]
    } else {
        Seq::empty()
    }
}

impl<C: Component> ViewModel<C> {
    /// Whether the view can take `op`: ops about a component must name a
    /// tracked component type, and removing or updating a component needs the
    /// entity to have it.
    pub open spec fn can_apply(self, op: WorkerOp<C>) -> bool {
        match op {
            WorkerOp::AddComponent(o) => self.components.contains(o.component_id),
            WorkerOp::RemoveComponent(o) => self.components.contains(o.component_id)
                && self.data[o.component_id].contains_key(o.entity_id.id),
            WorkerOp::AuthorityChange(o) => self.components.contains(o.component_id),
            WorkerOp::ComponentUpdate(o) => self.components.contains(o.component_id)
                && self.data[o.component_id].contains_key(o.entity_id.id),
            WorkerOp::CommandRequest(o) => self.components.contains(o.component_id),
            WorkerOp::CommandResponse(o) => self.components.contains(o.component_id),
            _ => true,
        }
    }

    /// The state after the view takes `op`. Ops that do not concern the view
    /// leave it unchanged.
    pub open spec fn apply(self, op: WorkerOp<C>) -> ViewModel<C> {
        match op {
            WorkerOp::AddEntity(o) => ViewModel {
                entities: self.entities.insert(o.entity_id.id),
                added: self.added.insert(o.entity_id.id),
                ..self
            },
            WorkerOp::RemoveEntity(o) => ViewModel {
                entities: self.entities.remove(o.entity_id.id),
                removed: self.removed.insert(o.entity_id.id),
                ..self
            },
            WorkerOp::AddComponent(o) => ViewModel {
                data: self.data.insert(
                    o.component_id,
                    self.data[o.component_id].insert(o.entity_id.id, o.data),
                ),
                ..self
            },
            WorkerOp::RemoveComponent(o) => ViewModel {
                data: self.data.insert(
                    o.component_id,
                    self.data[o.component_id].remove(o.entity_id.id),
                ),
                authority: self.authority.insert(
                    o.component_id,
                    self.authority[o.component_id].remove(o.entity_id.id),
                ),
                ..self
            },
            WorkerOp::AuthorityChange(o) => ViewModel {
                authority: self.authority.insert(
                    o.component_id,
                    self.authority[o.component_id].insert(o.entity_id.id, o.authority),
                ),
                ..self
            },
            WorkerOp::ComponentUpdate(o) => ViewModel {
                data: self.data.insert(
                    o.component_id,
                    self.data[o.component_id].insert(
                        o.entity_id.id,
                        self.data[o.component_id][o.entity_id.id].merged(o.update),
                    ),
                ),
                updated: self.updated.insert(
                    o.component_id,
                    self.updated[o.component_id].push(o.entity_id.id),
                ),
                ..self
            },
            WorkerOp::CommandRequest(o) => ViewModel {
                requests: self.requests.insert(
                    o.component_id,
                    self.requests[o.component_id].insert(
                        o.entity_id.id,
                        pending(self.requests[o.component_id], o.entity_id.id).push(
                            (o.request_id, o.request),
                        ),
                    ),
                ),
                ..self
            },
            WorkerOp::CommandResponse(o) => ViewModel {
                responses: self.responses.insert(
                    o.component_id,
                    self.responses[o.component_id].insert(
                        o.entity_id.id,
                        pending(self.responses[o.component_id], o.entity_id.id).push(
                            (o.request_id, o.response),
                        ),
                    ),
                ),
                ..self
            },
            _ => self,
        }
    }

    /// The state after the view is cleared of what changed: nothing is
    /// recorded as added, removed or updated, and no command requests or
    /// responses are pending; entities, data and authority stay.
    pub open spec fn cleared(self) -> ViewModel<C> {
        ViewModel {
            added: Set::empty(),
            removed: Set::empty(),
            updated: self.updated.map_values(|s: Seq<i64>| Seq::<i64>::empty()),
            requests: self.requests.map_values(
                |m: Map<i64, Seq<(RequestId, C::CommandRequest)>>|
                    Map::<i64, Seq<(RequestId, C::CommandRequest)>>::empty(),
            ),
            responses: self.responses.map_values(
                |m: Map<i64, Seq<(RequestId, StatusCode<C::CommandResponse>)>>|
                    Map::<i64, Seq<(RequestId, StatusCode<C::CommandResponse>)>>::empty(),
            ),
            ..self
        }
    }

    /// The state after the view takes `ops` in order.
    pub open spec fn apply_all(self, ops: Seq<WorkerOp<C>>) -> ViewModel<C>
        decreases ops.len(),
    {
        if ops.len() == 0 {
            self
        } else {
            self.apply_all(ops.drop_last()).apply(ops.last())
        }
    }

    /// Whether the view can take `ops` in order.
    pub open spec fn can_apply_all(self, ops: Seq<WorkerOp<C>>) -> bool
        decreases ops.len(),
    {
        if ops.len() == 0 {
            true
        } else {
            self.can_apply_all(ops.drop_last()) && self.apply_all(ops.drop_last()).can_apply(
                ops.last(),
            )
        }
    }
}

/// A sequence of ops that the view can take can be taken up to any point.
pub proof fn lemma_can_apply_prefix<C: Component>(m: ViewModel<C>, ops: Seq<WorkerOp<C>>, k: int)
    requires
        m.can_apply_all(ops),
        0 <= k <= ops.len(),
    ensures
        m.can_apply_all(ops.take(k)),
        k < ops.len() ==> m.apply_all(ops.take(k)).can_apply(ops[k]),
    decreases ops.len(),
{
    if k == ops.len() {
        assert(ops.take(k) =~= ops);
    } else {
        assert(ops.drop_last().take(k) =~= ops.take(k));
        if k == ops.len() - 1 {
            assert(ops.drop_last() =~= ops.take(k));
        } else {
            lemma_can_apply_prefix(m, ops.drop_last(), k);
            assert(ops.drop_last()[k] == ops[k]);
        }
    }
}

/// The entity IDs of a set of entities, each once.
fn ids_of(set: &HashSet<i64>) -> (res: Vec<EntityId>)
    ensures
        res@.len() == set@.len(),
        forall|e: i64| set@.contains(e) <==> exists|i: int|
            0 <= i < res@.len() && #[trigger] res@[i].id == e,
        forall|i: int, j: int| 0 <= i < j < res@.len() ==> res@[i].id != res@[j].id,
{
    let mut res: Vec<EntityId> = Vec::new();
    let ghost s = vstd::std_specs::hash::spec_hash_keys_iter(set).remaining();
    for e in it: set.iter()
        invariant
            it.seq() == s,
            res@.len() == it.index(),
            forall|i: int| 0 <= i < res@.len() ==> #[trigger] res@[i].id == *s[i],
    {
        res.push(EntityId::new(*e));
    }
    proof {
        assert(s.unref().to_set() == set@);
        assert(s.unref().no_duplicates());
        assert forall|e: i64| set@.contains(e) implies exists|i: int|
            0 <= i < res@.len() && #[trigger] res@[i].id == e by {
            assert(s.unref().to_set().contains(e));
            let i = choose|i: int| 0 <= i < s.unref().len() && s.unref()[i] == e;
            assert(res@[i].id == e);
        }
        assert forall|e: i64| (exists|i: int| 0 <= i < res@.len() && #[trigger] res@[i].id == e)
            implies set@.contains(e) by {
            let i = choose|i: int| 0 <= i < res@.len() && #[trigger] res@[i].id == e;
            assert(s.unref()[i] == e);
            assert(s.unref().to_set().contains(e));
        }
        assert forall|i: int, j: int| 0 <= i < j < res@.len() implies res@[i].id != res@[j].id by {
            assert(s.unref()[i] != s.unref()[j]);
        }
        s.unref().unique_seq_to_set();
    }
    res
}

/// An entity that the view is told was added is in the view and counts as
/// added.
pub proof fn lemma_added_entity_is_present<C: Component>(m: ViewModel<C>, entity_id: EntityId)
    ensures
        ({
            let after = m.apply(WorkerOp::AddEntity(AddEntityOp { entity_id }));
            &&& after.entities.contains(entity_id.id)
            &&& after.added.contains(entity_id.id)
        }),
{
}

/// An entity that the view is told was removed is no longer in the view and
/// counts as removed.
pub proof fn lemma_removed_entity_is_absent<C: Component>(m: ViewModel<C>, entity_id: EntityId)
    ensures
        ({
            let after = m.apply(WorkerOp::RemoveEntity(RemoveEntityOp { entity_id }));
            &&& !after.entities.contains(entity_id.id)
            &&& after.removed.contains(entity_id.id)
        }),
{
}

/// The data of an added component is what the view then gives back for it.
pub proof fn lemma_added_component_reads_back<C: Component>(m: ViewModel<C>, op: AddComponentOp<C>)
    requires
        m.can_apply(WorkerOp::AddComponent(op)),
    ensures
        ({
            let after = m.apply(WorkerOp::AddComponent(op));
            &&& after.data[op.component_id].contains_key(op.entity_id.id)
            &&& after.data[op.component_id][op.entity_id.id] == op.data
        }),
{
}

/// Removing a component forgets both its data and the worker's authority
/// over it.
pub proof fn lemma_removed_component_is_forgotten<C: Component>(
    m: ViewModel<C>,
    op: RemoveComponentOp,
)
    requires
        m.can_apply(WorkerOp::RemoveComponent(op)),
    ensures
        ({
            let after = m.apply(WorkerOp::RemoveComponent(op));
            &&& !after.data[op.component_id].contains_key(op.entity_id.id)
            &&& !after.authority[op.component_id].contains_key(op.entity_id.id)
        }),
{
}

/// The authority of an authority change is what the view then gives back.
pub proof fn lemma_authority_change_reads_back<C: Component>(
    m: ViewModel<C>,
    op: AuthorityChangeOp,
)
    requires
        m.can_apply(WorkerOp::AuthorityChange(op)),
    ensures
        ({
            let after = m.apply(WorkerOp::AuthorityChange(op));
            &&& after.authority[op.component_id].contains_key(op.entity_id.id)
            &&& after.authority[op.component_id][op.entity_id.id] == op.authority
        }),
{
}

/// An update is merged into the component's data, and the entity is recorded
/// as updated for that component.
pub proof fn lemma_update_merges_and_is_recorded<C: Component>(
    m: ViewModel<C>,
    op: ComponentUpdateOp<C::Update>,
)
    requires
        m.can_apply(WorkerOp::ComponentUpdate(op)),
    ensures
        ({
            let after = m.apply(WorkerOp::ComponentUpdate(op));
            &&& after.data[op.component_id][op.entity_id.id]
                == m.data[op.component_id][op.entity_id.id].merged(op.update)
            &&& after.updated[op.component_id].contains(op.entity_id.id)
        }),
{
    let after = m.apply(WorkerOp::ComponentUpdate(op));
    let s = after.updated[op.component_id];
    assert(s[s.len() - 1] == op.entity_id.id);
}

/// A command request is kept, after those that arrived before it for the
/// same component of the same entity.
pub proof fn lemma_command_request_is_queued<C: Component>(
    m: ViewModel<C>,
    op: CommandRequestOp<C::CommandRequest>,
)
    requires
        m.can_apply(WorkerOp::CommandRequest(op)),
    ensures
        ({
            let after = m.apply(WorkerOp::CommandRequest(op));
            let before = pending(m.requests[op.component_id], op.entity_id.id);
            &&& after.requests[op.component_id].contains_key(op.entity_id.id)
            &&& after.requests[op.component_id][op.entity_id.id] == before.push(
                (op.request_id, op.request),
            )
        }),
{
}

/// Only a component update records an entity as updated: every other op the
/// view takes (entities, components added or removed, authority changes,
/// command requests and responses, and ops the view ignores) leaves the list
/// of updated entities of every component type unchanged.
pub proof fn lemma_only_updates_are_recorded<C: Component>(m: ViewModel<C>, op: WorkerOp<C>)
    requires
        m.can_apply(op),
        !(op is ComponentUpdate),
    ensures
        m.apply(op).updated == m.updated,
{
}

/// Each op changes only the part of the view it is about: entities and the
/// added and removed sets change only with entity ops; component data only
/// with components added, removed or updated; authority only with authority
/// changes and removed components; command requests and responses only with
/// ops that bring them. The tracked component types never change.
pub proof fn lemma_ops_touch_only_their_part<C: Component>(m: ViewModel<C>, op: WorkerOp<C>)
    requires
        m.can_apply(op),
    ensures
        m.apply(op).components == m.components,
        !(op is AddEntity) && !(op is RemoveEntity) ==> {
            &&& m.apply(op).entities == m.entities
            &&& m.apply(op).added == m.added
            &&& m.apply(op).removed == m.removed
        },
        !(op is AddComponent) && !(op is RemoveComponent) && !(op is ComponentUpdate) ==> m.apply(
            op,
        ).data == m.data,
        !(op is AuthorityChange) && !(op is RemoveComponent) ==> m.apply(op).authority
            == m.authority,
        !(op is CommandRequest) ==> m.apply(op).requests == m.requests,
        !(op is CommandResponse) ==> m.apply(op).responses == m.responses,
{
}

/// A command response is appended to those that arrived before it for the
/// same component of the same entity: the earlier ones keep their places and
/// the new one comes last. Responses for every other component or entity are
/// unchanged.
pub proof fn lemma_command_response_is_appended<C: Component>(
    m: ViewModel<C>,
    op: CommandResponseOp<C::CommandResponse>,
    component_id: ComponentId,
    entity: i64,
)
    requires
        m.can_apply(WorkerOp::CommandResponse(op)),
        m.components.contains(component_id),
    ensures
        ({
            let after = pending(
                m.apply(WorkerOp::CommandResponse(op)).responses[op.component_id],
                op.entity_id.id,
            );
            let before = pending(m.responses[op.component_id], op.entity_id.id);
            &&& after.len() == before.len() + 1
            &&& forall|i: int| 0 <= i < before.len() ==> after[i] == before[i]
            &&& after[before.len() as int] == (op.request_id, op.response)
        }),
        component_id != op.component_id || entity != op.entity_id.id ==> pending(
            m.apply(WorkerOp::CommandResponse(op)).responses[component_id],
            entity,
        ) == pending(m.responses[component_id], entity),
{
}

/// An op about one component of one entity leaves the data and authority of
/// every other component and entity unchanged.
pub proof fn lemma_ops_are_local<C: Component>(
    m: ViewModel<C>,
    op: WorkerOp<C>,
    component_id: ComponentId,
    entity: i64,
)
    requires
        m.can_apply(op),
        m.components.contains(component_id),
        match op {
            WorkerOp::AddComponent(o) => o.component_id != component_id || o.entity_id.id != entity,
            WorkerOp::RemoveComponent(o) => o.component_id != component_id || o.entity_id.id
                != entity,
            WorkerOp::AuthorityChange(o) => o.component_id != component_id || o.entity_id.id
                != entity,
            WorkerOp::ComponentUpdate(o) => o.component_id != component_id || o.entity_id.id
                != entity,
            _ => true,
        },
    ensures
        m.apply(op).data[component_id].contains_key(entity) == m.data[component_id].contains_key(
            entity,
        ),
        m.data[component_id].contains_key(entity) ==> m.apply(op).data[component_id][entity]
            == m.data[component_id][entity],
        m.apply(op).authority[component_id].contains_key(entity)
            == m.authority[component_id].contains_key(entity),
        m.authority[component_id].contains_key(entity) ==> m.apply(op).authority[component_id][entity]
            == m.authority[component_id][entity],
{
}

/// The component types a view tracks never change, whatever ops it takes.
pub proof fn lemma_ops_keep_components<C: Component>(m: ViewModel<C>, ops: Seq<WorkerOp<C>>)
    ensures
        m.apply_all(ops).components == m.components,
    decreases ops.len(),
{
    if ops.len() > 0 {
        lemma_ops_keep_components(m, ops.drop_last());
    }
}

/// Clearing keeps the entities, their data and the worker's authority, and
/// clearing twice is clearing once.
pub proof fn lemma_clear_keeps_world<C: Component>(m: ViewModel<C>)
    ensures
        m.cleared().components == m.components,
        m.cleared().entities == m.entities,
        m.cleared().data == m.data,
        m.cleared().authority == m.authority,
        m.cleared().cleared() == m.cleared(),
{
    assert(m.cleared().cleared().updated =~= m.cleared().updated);
    assert(m.cleared().cleared().requests =~= m.cleared().requests);
    assert(m.cleared().cleared().responses =~= m.cleared().responses);
}

/// The local view of the world.
pub struct View<C: Component> {
    registered: Vec<ComponentId>,
    data: HashMap<ComponentId, HashMap<i64, C>>,
    authority: HashMap<ComponentId, HashMap<i64, Authority>>,
    entities: HashSet<i64>,
    entities_added: HashSet<i64>,
    entities_removed: HashSet<i64>,
    components_updated: HashMap<ComponentId, Vec<i64>>,
    command_requests: HashMap<ComponentId, HashMap<i64, Vec<(RequestId, C::CommandRequest)>>>,
    command_responses: HashMap<
        ComponentId,
        HashMap<i64, Vec<(RequestId, StatusCode<C::CommandResponse>)>>,
    >,
}

impl<C: Component> View<C> {
    /// The abstract state of the view.
    pub closed spec fn model(&self) -> ViewModel<C> {
        ViewModel {
            components: self.data@.dom(),
            entities: self.entities@,
            added: self.entities_added@,
            removed: self.entities_removed@,
            data: self.data@.map_values(|m: HashMap<i64, C>| m@),
            authority: self.authority@.map_values(|m: HashMap<i64, Authority>| m@),
            updated: self.components_updated@.map_values(|v: Vec<i64>| v@),
            requests: self.command_requests@.map_values(
                |m: HashMap<i64, Vec<(RequestId, C::CommandRequest)>>|
                    m@.map_values(|v: Vec<(RequestId, C::CommandRequest)>| v@),
            ),
            responses: self.command_responses@.map_values(
                |m: HashMap<i64, Vec<(RequestId, StatusCode<C::CommandResponse>)>>|
                    m@.map_values(|v: Vec<(RequestId, StatusCode<C::CommandResponse>)>| v@),
            ),
        }
    }

    /// The view's internal consistency: every per-component table covers
    /// exactly the registered component types.
    pub closed spec fn wf(&self) -> bool {
        &&& forall|c: ComponentId| #[trigger]
            self.data@.contains_key(c) <==> self.registered@.contains(c)
        &&& self.authority@.dom() == self.data@.dom()
        &&& self.components_updated@.dom() == self.data@.dom()
        &&& self.command_requests@.dom() == self.data@.dom()
        &&& self.command_responses@.dom() == self.data@.dom()
    }

    /// In a well-formed view, the data, authority, updates, requests and
    /// responses are each kept for exactly the tracked component types.
    pub proof fn lemma_tables_cover_components(&self)
        requires
            self.wf(),
        ensures
            self.model().data.dom() == self.model().components,
            self.model().authority.dom() == self.model().components,
            self.model().updated.dom() == self.model().components,
            self.model().requests.dom() == self.model().components,
            self.model().responses.dom() == self.model().components,
    {
        assert(self.model().data.dom() =~= self.model().components);
        assert(self.model().authority.dom() =~= self.model().components);
        assert(self.model().updated.dom() =~= self.model().components);
        assert(self.model().requests.dom() =~= self.model().components);
        assert(self.model().responses.dom() =~= self.model().components);
    }

    /// A view that tracks the component types `component_ids`, with no
    /// entities.
    pub fn new(component_ids: &Vec<ComponentId>) -> (res: Self)
        ensures
            res.wf(),
            res.model().components == component_ids@.to_set(),
            res.model().entities.is_empty(),
            res.model().added.is_empty(),
            res.model().removed.is_empty(),
            forall|c: ComponentId| #[trigger] component_ids@.contains(c) ==> {
                &&& res.model().data[c].is_empty()
                &&& res.model().authority[c].is_empty()
                &&& res.model().updated[c].len() == 0
                &&& res.model().requests[c].is_empty()
                &&& res.model().responses[c].is_empty()
            },
    {
        let mut view = View {
            registered: Vec::new(),
            data: HashMap::new(),
            authority: HashMap::new(),
            entities: HashSet::new(),
            entities_added: HashSet::new(),
            entities_removed: HashSet::new(),
            components_updated: HashMap::new(),
            command_requests: HashMap::new(),
            command_responses: HashMap::new(),
        };
        let mut i: usize = 0;
        while i < component_ids.len()
            invariant
                0 <= i <= component_ids.len(),
                view.wf(),
                view.entities@.is_empty(),
                view.entities_added@.is_empty(),
                view.entities_removed@.is_empty(),
                forall|c: ComponentId| #[trigger]
                    view.registered@.contains(c) <==> component_ids@.take(i as int).contains(c),
                forall|c: ComponentId| #[trigger] view.data@.contains_key(c) ==> {
                    &&& view.data@[c]@.is_empty()
                    &&& view.authority@[c]@.is_empty()
                    &&& view.components_updated@[c]@.len() == 0
                    &&& view.command_requests@[c]@.is_empty()
                    &&& view.command_responses@[c]@.is_empty()
                },
            decreases component_ids.len() - i,
        {
            let id = component_ids[i];
            view.registered.push(id);
            view.data.insert(id, HashMap::new());
            view.authority.insert(id, HashMap::new());
            view.components_updated.insert(id, Vec::new());
            view.command_requests.insert(id, HashMap::new());
            view.command_responses.insert(id, HashMap::new());
            proof {
                assert(component_ids@.take(i + 1) =~= component_ids@.take(i as int).push(id));
                assert forall|c: ComponentId| #[trigger]
                    view.data@.contains_key(c) <==> view.registered@.contains(c) by {
                    if c == id {
                        assert(view.registered@[view.registered@.len() - 1] == id);
                    }
                }
            }
            i = i + 1;
        }
        proof {
            assert(component_ids@.take(component_ids@.len() as int) =~= component_ids@);
            assert(view.model().components =~= component_ids@.to_set());
            assert forall|c: ComponentId| #[trigger] component_ids@.contains(c) implies {
                &&& view.model().data[c].is_empty()
                &&& view.model().authority[c].is_empty()
                &&& view.model().updated[c].len() == 0
                &&& view.model().requests[c].is_empty()
                &&& view.model().responses[c].is_empty()
            } by {
                assert(view.registered@.contains(c));
                assert(view.data@.contains_key(c));
            }
        }
        view
    }

    fn add_entity(&mut self, entity_id: EntityId)
        requires
            old(self).wf(),
        ensures
            final(self).wf(),
            final(self).model() == old(self).model().apply(
                WorkerOp::AddEntity(AddEntityOp { entity_id }),
            ),
    {
        self.entities.insert(entity_id.id);
        self.entities_added.insert(entity_id.id);
        proof {
            assert(self.model() =~= old(self).model().apply(
                WorkerOp::AddEntity(AddEntityOp { entity_id }),
            ));
        }
    }

    fn remove_entity(&mut self, entity_id: EntityId)
        requires
            old(self).wf(),
        ensures
            final(self).wf(),
            final(self).model() == old(self).model().apply(
                WorkerOp::RemoveEntity(RemoveEntityOp { entity_id }),
            ),
    {
        self.entities.remove(&entity_id.id);
        self.entities_removed.insert(entity_id.id);
        proof {
            assert(self.model() =~= old(self).model().apply(
                WorkerOp::RemoveEntity(RemoveEntityOp { entity_id }),
            ));
        }
    }

    fn add_component(&mut self, op: AddComponentOp<C>)
        requires
            old(self).wf(),
            old(self).model().can_apply(WorkerOp::AddComponent(op)),
        ensures
            final(self).wf(),
            final(self).model() == old(self).model().apply(WorkerOp::AddComponent(op)),
    {
        let ghost old_model = self.model();
        let c = op.component_id;
        let e = op.entity_id.id;
        let mut inner = self.data.remove(&c).unwrap();
        inner.insert(e, op.data);
        self.data.insert(c, inner);
        proof {
            assert(self.data@.dom() =~= old(self).data@.dom());
            assert(self.model().data =~= old_model.data.insert(c, old_model.data[c].insert(e, op.data)));
            assert(self.model() =~= old_model.apply(WorkerOp::AddComponent(op)));
        }
    }

    fn remove_component(&mut self, op: RemoveComponentOp)
        requires
            old(self).wf(),
            old(self).model().can_apply(WorkerOp::RemoveComponent(op)),
        ensures
            final(self).wf(),
            final(self).model() == old(self).model().apply(WorkerOp::RemoveComponent(op)),
    {
        let ghost old_model = self.model();
        let c = op.component_id;
        let e = op.entity_id.id;
        let mut inner = self.data.remove(&c).unwrap();
        let _removed = inner.remove(&e);
        self.data.insert(c, inner);
        let mut auth = self.authority.remove(&c).unwrap();
        auth.remove(&e);
        self.authority.insert(c, auth);
        proof {
            assert(self.data@.dom() =~= old(self).data@.dom());
            assert(self.authority@.dom() =~= old(self).authority@.dom());
            assert(self.model().data =~= old_model.data.insert(c, old_model.data[c].remove(e)));
            assert(self.model().authority =~= old_model.authority.insert(
                c,
                old_model.authority[c].remove(e),
            ));
            assert(self.model() =~= old_model.apply(WorkerOp::RemoveComponent(op)));
        }
    }

    fn set_authority(&mut self, op: AuthorityChangeOp)
        requires
            old(self).wf(),
            old(self).model().can_apply(WorkerOp::AuthorityChange(op)),
        ensures
            final(self).wf(),
            final(self).model() == old(self).model().apply(WorkerOp::AuthorityChange(op)),
    {
        let ghost old_model = self.model();
        let c = op.component_id;
        let e = op.entity_id.id;
        let mut auth = self.authority.remove(&c).unwrap();
        auth.insert(e, op.authority);
        self.authority.insert(c, auth);
        proof {
            assert(self.authority@.dom() =~= old(self).authority@.dom());
            assert(self.model().authority =~= old_model.authority.insert(
                c,
                old_model.authority[c].insert(e, op.authority),
            ));
            assert(self.model() =~= old_model.apply(WorkerOp::AuthorityChange(op)));
        }
    }

    fn handle_component_update(&mut self, op: ComponentUpdateOp<C::Update>)
        requires
            old(self).wf(),
            old(self).model().can_apply(WorkerOp::ComponentUpdate(op)),
        ensures
            final(self).wf(),
            final(self).model() == old(self).model().apply(WorkerOp::ComponentUpdate(op)),
    {
        let ghost old_model = self.model();
        let c = op.component_id;
        let e = op.entity_id.id;
        let mut inner = self.data.remove(&c).unwrap();
        let ghost old_inner = inner@;
        assert(old_inner == old_model.data[c]);
        let mut component = inner.remove(&e).unwrap();
        assert(component == old_inner[e]);
        component.merge_update(op.update);
        assert(component == old_inner[e].merged(op.update));
        inner.insert(e, component);
        assert(inner@ =~= old_inner.insert(e, old_inner[e].merged(op.update)));
        self.data.insert(c, inner);
        let mut updated = self.components_updated.remove(&c).unwrap();
        updated.push(e);
        self.components_updated.insert(c, updated);
        proof {
            assert(self.data@.dom() =~= old(self).data@.dom());
            assert(self.components_updated@.dom() =~= old(self).components_updated@.dom());
            assert(self.model().data =~= old_model.data.insert(
                c,
                old_model.data[c].insert(e, old_model.data[c][e].merged(op.update)),
            ));
            assert(self.model().updated =~= old_model.updated.insert(
                c,
                old_model.updated[c].push(e),
            ));
            assert(self.model() =~= old_model.apply(WorkerOp::ComponentUpdate(op)));
        }
    }

    fn handle_command_request(&mut self, op: CommandRequestOp<C::CommandRequest>)
        requires
            old(self).wf(),
            old(self).model().can_apply(WorkerOp::CommandRequest(op)),
        ensures
            final(self).wf(),
            final(self).model() == old(self).model().apply(WorkerOp::CommandRequest(op)),
    {
        let ghost old_model = self.model();
        let c = op.component_id;
        let e = op.entity_id.id;
        let mut inner = self.command_requests.remove(&c).unwrap();
        let mut list = match inner.remove(&e) {
            Some(list) => list,
            None => Vec::new(),
        };
        list.push((op.request_id, op.request));
        inner.insert(e, list);
        self.command_requests.insert(c, inner);
        proof {
            assert(self.command_requests@.dom() =~= old(self).command_requests@.dom());
            assert(self.model().requests[c] =~= old_model.requests[c].insert(
                e,
                pending(old_model.requests[c], e).push((op.request_id, op.request)),
            ));
            assert(self.model().requests =~= old_model.requests.insert(
                c,
                old_model.requests[c].insert(
                    e,
                    pending(old_model.requests[c], e).push((op.request_id, op.request)),
                ),
            ));
            assert(self.model() =~= old_model.apply(WorkerOp::CommandRequest(op)));
        }
    }

    fn handle_command_response(&mut self, op: CommandResponseOp<C::CommandResponse>)
        requires
            old(self).wf(),
            old(self).model().can_apply(WorkerOp::CommandResponse(op)),
        ensures
            final(self).wf(),
            final(self).model() == old(self).model().apply(WorkerOp::CommandResponse(op)),
    {
        let ghost old_model = self.model();
        let c = op.component_id;
        let e = op.entity_id.id;
        let mut inner = self.command_responses.remove(&c).unwrap();
        let mut list = match inner.remove(&e) {
            Some(list) => list,
            None => Vec::new(),
        };
        list.push((op.request_id, op.response));
        inner.insert(e, list);
        self.command_responses.insert(c, inner);
        proof {
            assert(self.command_responses@.dom() =~= old(self).command_responses@.dom());
            assert(self.model().responses[c] =~= old_model.responses[c].insert(
                e,
                pending(old_model.responses[c], e).push((op.request_id, op.response)),
            ));
            assert(self.model().responses =~= old_model.responses.insert(
                c,
                old_model.responses[c].insert(
                    e,
                    pending(old_model.responses[c], e).push((op.request_id, op.response)),
                ),
            ));
            assert(self.model() =~= old_model.apply(WorkerOp::CommandResponse(op)));
        }
    }

    /// Takes one op: entities and components are added or removed, authority
    /// and component data change, and updates and command requests and
    /// responses are recorded; ops that do not concern the view leave it
    /// unchanged.
    pub fn process_op(&mut self, op: WorkerOp<C>)
        requires
            old(self).wf(),
            old(self).model().can_apply(op),
        ensures
            final(self).wf(),
            final(self).model() == old(self).model().apply(op),
    {
        match op {
            WorkerOp::AddEntity(o) => self.add_entity(o.entity_id),
            WorkerOp::RemoveEntity(o) => self.remove_entity(o.entity_id),
            WorkerOp::AddComponent(o) => self.add_component(o),
            WorkerOp::RemoveComponent(o) => self.remove_component(o),
            WorkerOp::ComponentUpdate(o) => self.handle_component_update(o),
            WorkerOp::AuthorityChange(o) => self.set_authority(o),
            WorkerOp::CommandRequest(o) => self.handle_command_request(o),
            WorkerOp::CommandResponse(o) => self.handle_command_response(o),
            _ => {},
        }
    }

    /// Takes the ops of a list in order.
    pub fn process_ops(&mut self, ops: Vec<WorkerOp<C>>)
        requires
            old(self).wf(),
            old(self).model().can_apply_all(ops@),
        ensures
            final(self).wf(),
            final(self).model() == old(self).model().apply_all(ops@),
    {
        let ghost start = self.model();
        let ghost all = ops@;
        for op in it: ops.into_iter()
            invariant
                self.wf(),
                it.seq() == all,
                start.can_apply_all(all),
                self.model() == start.apply_all(all.take(it.index() as int)),
        {
            proof {
                lemma_can_apply_prefix(start, all, it.index() as int);
                assert(all.take(it.index() + 1).drop_last() =~= all.take(it.index() as int));
            }
            self.process_op(op);
        }
        proof {
            assert(all.take(all.len() as int) =~= all);
        }
    }

    /// Forgets what changed since the view was last cleared: the entities
    /// added and removed, the components updated, and the command requests
    /// and responses received.
    pub fn clear_transient_data(&mut self)
        requires
            old(self).wf(),
        ensures
            final(self).wf(),
            final(self).model() == old(self).model().cleared(),
            forall|c: ComponentId|
                #![trigger final(self).model().updated[c]]
                #![trigger final(self).model().requests[c]]
                #![trigger final(self).model().responses[c]]
                final(self).model().components.contains(c) ==> {
                &&& final(self).model().updated[c].len() == 0
                &&& final(self).model().requests[c] == Map::<
                    i64,
                    Seq<(RequestId, C::CommandRequest)>,
                >::empty()
                &&& final(self).model().responses[c] == Map::<
                    i64,
                    Seq<(RequestId, StatusCode<C::CommandResponse>)>,
                >::empty()
            },
    {
        let ghost old_model = self.model();
        self.entities_added.clear();
        self.entities_removed.clear();
        let mut i: usize = 0;
        while i < self.registered.len()
            invariant
                0 <= i <= self.registered.len(),
                self.wf(),
                self.registered@ == old(self).registered@,
                self.data@ == old(self).data@,
                self.authority@ == old(self).authority@,
                self.entities@ == old(self).entities@,
                self.entities_added@.is_empty(),
                self.entities_removed@.is_empty(),
                forall|c: ComponentId| #[trigger] self.data@.contains_key(c) ==> {
                    if self.registered@.take(i as int).contains(c) {
                        &&& self.components_updated@[c]@.len() == 0
                        &&& self.command_requests@[c]@.is_empty()
                        &&& self.command_responses@[c]@.is_empty()
                    } else {
                        &&& self.components_updated@[c] == old(self).components_updated@[c]
                        &&& self.command_requests@[c] == old(self).command_requests@[c]
                        &&& self.command_responses@[c] == old(self).command_responses@[c]
                    }
                },
            decreases self.registered.len() - i,
        {
            let c = self.registered[i];
            proof {
                assert(self.registered@.contains(c));
                assert(self.registered@.take(i + 1) =~= self.registered@.take(i as int).push(c));
            }
            self.components_updated.insert(c, Vec::new());
            self.command_requests.insert(c, HashMap::new());
            self.command_responses.insert(c, HashMap::new());
            i = i + 1;
            proof {
                assert(self.components_updated@.dom() =~= self.data@.dom());
                assert(self.command_requests@.dom() =~= self.data@.dom());
                assert(self.command_responses@.dom() =~= self.data@.dom());
            }
        }
        proof {
            assert(self.registered@.take(self.registered@.len() as int) =~= self.registered@);
            assert(self.model().updated =~= old_model.cleared().updated);
            assert forall|c: ComponentId| #[trigger] self.model().requests.contains_key(c) implies
                self.model().requests[c] =~= old_model.cleared().requests[c] by {
                assert(self.registered@.contains(c));
            }
            assert forall|c: ComponentId| #[trigger] self.model().responses.contains_key(c) implies
                self.model().responses[c] =~= old_model.cleared().responses[c] by {
                assert(self.registered@.contains(c));
            }
            assert(self.model().requests =~= old_model.cleared().requests);
            assert(self.model().responses =~= old_model.cleared().responses);
            assert(self.model() =~= old_model.cleared());
        }
    }

    /// The data of the component `component_id` of the entity, if the view
    /// has it.
    pub fn get_component(&self, component_id: ComponentId, entity_id: EntityId) -> (res: Option<&C>)
        requires
            self.wf(),
            self.model().components.contains(component_id),
        ensures
            match res {
                Some(d) => self.model().data[component_id].contains_key(entity_id.id) && *d
                    == self.model().data[component_id][entity_id.id],
                None => !self.model().data[component_id].contains_key(entity_id.id),
            },
    {
        self.data.get(&component_id).unwrap().get(&entity_id.id)
    }

    /// The worker's authority over the component `component_id` of the
    /// entity, if the view has one.
    pub fn get_authority(&self, component_id: ComponentId, entity_id: EntityId) -> (res: Option<
        Authority,
    >)
        requires
            self.wf(),
            self.model().components.contains(component_id),
        ensures
            match res {
                Some(a) => self.model().authority[component_id].contains_key(entity_id.id) && a
                    == self.model().authority[component_id][entity_id.id],
                None => !self.model().authority[component_id].contains_key(entity_id.id),
            },
    {
        match self.authority.get(&component_id).unwrap().get(&entity_id.id) {
            Some(a) => Some(*a),
            None => None,
        }
    }

    /// Whether the worker is authoritative over the component `component_id`
    /// of the entity; an imminent loss of authority does not count.
    pub fn is_authoritative(&self, component_id: ComponentId, entity_id: EntityId) -> (res: bool)
        requires
            self.wf(),
            self.model().components.contains(component_id),
        ensures
            res == (self.model().authority[component_id].contains_key(entity_id.id)
                && self.model().authority[component_id][entity_id.id]
                == Authority::Authoritative),
    {
        match self.get_authority(component_id, entity_id) {
            Some(Authority::Authoritative) => true,
            _ => false,
        }
    }

    /// Whether the entity is in the view.
    pub fn has_entity(&self, entity_id: EntityId) -> (res: bool)
        ensures
            res == self.model().entities.contains(entity_id.id),
    {
        self.entities.contains(&entity_id.id)
    }

    /// Whether the entity was added since the view was last cleared.
    pub fn was_entity_added(&self, entity_id: EntityId) -> (res: bool)
        ensures
            res == self.model().added.contains(entity_id.id),
    {
        self.entities_added.contains(&entity_id.id)
    }

    /// Whether the entity was removed since the view was last cleared.
    pub fn was_entity_removed(&self, entity_id: EntityId) -> (res: bool)
        ensures
            res == self.model().removed.contains(entity_id.id),
    {
        self.entities_removed.contains(&entity_id.id)
    }

    /// Whether the component `component_id` of the entity was updated since
    /// the view was last cleared.
    pub fn was_component_updated(&self, component_id: ComponentId, entity_id: EntityId) -> (res:
        bool)
        requires
            self.wf(),
            self.model().components.contains(component_id),
        ensures
            res == self.model().updated[component_id].contains(entity_id.id),
    {
        let updated = self.components_updated.get(&component_id).unwrap();
        let mut i: usize = 0;
        while i < updated.len()
            invariant
                0 <= i <= updated.len(),
                updated@ == self.model().updated[component_id],
                forall|j: int| 0 <= j < i ==> updated@[j] != entity_id.id,
            decreases updated.len() - i,
        {
            if updated[i] == entity_id.id {
                return true;
            }
            i = i + 1;
        }
        false
    }

    /// Whether command requests for the component `component_id` of the
    /// entity arrived since the view was last cleared.
    pub fn has_command_requests(&self, component_id: ComponentId, entity_id: EntityId) -> (res:
        bool)
        requires
            self.wf(),
            self.model().components.contains(component_id),
        ensures
            res == self.model().requests[component_id].contains_key(entity_id.id),
    {
        self.command_requests.get(&component_id).unwrap().contains_key(&entity_id.id)
    }

    /// Whether command responses for the component `component_id` of the
    /// entity arrived since the view was last cleared.
    pub fn has_command_responses(&self, component_id: ComponentId, entity_id: EntityId) -> (res:
        bool)
        requires
            self.wf(),
            self.model().components.contains(component_id),
        ensures
            res == self.model().responses[component_id].contains_key(entity_id.id),
    {
        self.command_responses.get(&component_id).unwrap().contains_key(&entity_id.id)
    }

    /// The command requests for the component `component_id` of the entity
    /// that arrived since the view was last cleared, in the order received.
    pub fn get_command_requests(&self, component_id: ComponentId, entity_id: EntityId) -> (res:
        Option<&Vec<(RequestId, C::CommandRequest)>>)
        requires
            self.wf(),
            self.model().components.contains(component_id),
        ensures
            match res {
                Some(v) => self.model().requests[component_id].contains_key(entity_id.id) && v@
                    == self.model().requests[component_id][entity_id.id],
                None => !self.model().requests[component_id].contains_key(entity_id.id),
            },
    {
        self.command_requests.get(&component_id).unwrap().get(&entity_id.id)
    }

    /// The command responses for the component `component_id` of the entity
    /// that arrived since the view was last cleared, in the order received.
    pub fn get_command_responses(&self, component_id: ComponentId, entity_id: EntityId) -> (res:
        Option<&Vec<(RequestId, StatusCode<C::CommandResponse>)>>)
        requires
            self.wf(),
            self.model().components.contains(component_id),
        ensures
            match res {
                Some(v) => self.model().responses[component_id].contains_key(entity_id.id) && v@
                    == self.model().responses[component_id][entity_id.id],
                None => !self.model().responses[component_id].contains_key(entity_id.id),
            },
    {
        self.command_responses.get(&component_id).unwrap().get(&entity_id.id)
    }

    /// The first response to the request `request_id` among the command
    /// responses for the component `component_id` of the entity.
    pub fn get_command_response(
        &self,
        component_id: ComponentId,
        entity_id: EntityId,
        request_id: RequestId,
    ) -> (res: Option<&StatusCode<C::CommandResponse>>)
        requires
            self.wf(),
            self.model().components.contains(component_id),
        ensures
            ({
                let list = pending(self.model().responses[component_id], entity_id.id);
                match res {
                    Some(r) => exists|i: int|
                        0 <= i < list.len() && list[i].0 == request_id && *r == list[i].1 && (
                        forall|j: int| 0 <= j < i ==> list[j].0 != request_id),
                    None => forall|i: int| 0 <= i < list.len() ==> list[i].0 != request_id,
                }
            }),
    {
        match self.command_responses.get(&component_id).unwrap().get(&entity_id.id) {
            Some(list) => {
                let mut i: usize = 0;
                while i < list.len()
                    invariant
                        0 <= i <= list.len(),
                        list@ == pending(self.model().responses[component_id], entity_id.id),
                        forall|j: int| 0 <= j < i ==> list@[j].0 != request_id,
                    decreases list.len() - i,
                {
                    if list[i].0 == request_id {
                        return Some(&list[i].1);
                    }
                    i = i + 1;
                }
                None
            },
            None => None,
        }
    }

    /// The entities in the view, each once, in no particular order.
    pub fn iter_entities(&self) -> (res: Vec<EntityId>)
        ensures
            res@.len() == self.model().entities.len(),
            forall|e: i64| self.model().entities.contains(e) <==> exists|i: int|
                0 <= i < res@.len() && #[trigger] res@[i].id == e,
            forall|i: int, j: int| 0 <= i < j < res@.len() ==> res@[i].id != res@[j].id,
    {
        ids_of(&self.entities)
    }

    /// The entities removed since the view was last cleared, each once, in
    /// no particular order.
    pub fn iter_entities_removed(&self) -> (res: Vec<EntityId>)
        ensures
            res@.len() == self.model().removed.len(),
            forall|e: i64| self.model().removed.contains(e) <==> exists|i: int|
                0 <= i < res@.len() && #[trigger] res@[i].id == e,
            forall|i: int, j: int| 0 <= i < j < res@.len() ==> res@[i].id != res@[j].id,
    {
        ids_of(&self.entities_removed)
    }

    /// What the query `T` makes of an entity of the view: nothing where it
    /// does not take it.
    pub open spec fn query_step<'a, T: ViewQuery<'a, C>>(&'a self) -> spec_fn(EntityId) -> Option<
        T,
    > {
        |e: EntityId|
            if T::takes(self.model(), e) {
                Some(T::made(self, e))
            } else {
                None
            }
    }

    /// What the query `T` makes of each entity of the view that it takes, in
    /// the order of the entities in `ids`.
    pub open spec fn query_results<'a, T: ViewQuery<'a, C>>(&'a self, ids: Seq<EntityId>) -> Seq<
        T,
    > {
        ids.filter_map(self.query_step::<T>())
    }

    /// Runs the query `T` over the view: what it makes of each entity that
    /// it takes, the entities taken in no particular order, each once.
    pub fn query<'a, T: ViewQuery<'a, C>>(&'a self) -> (res: Vec<T>)
        ensures
            exists|ids: Seq<EntityId>|
                {
                    &&& forall|e: i64| self.model().entities.contains(e) <==> exists|i: int|
                        0 <= i < ids.len() && #[trigger] ids[i].id == e
                    &&& forall|i: int, j: int| 0 <= i < j < ids.len() ==> ids[i].id != ids[j].id
                    &&& res@ == self.query_results::<T>(ids)
                },
    {
        let ids = self.iter_entities();
        let ghost f = self.query_step::<T>();
        let mut res: Vec<T> = Vec::new();
        let mut i: usize = 0;
        while i < ids.len()
            invariant
                0 <= i <= ids.len(),
                f == self.query_step::<T>(),
                res@ == ids@.take(i as int).filter_map(f),
            decreases ids.len() - i,
        {
            let id = ids[i];
            proof {
                ids@.lemma_filter_map_take_succ(f, i as int);
            }
            assert(id == ids@[i as int]);
            if T::filter(self, id) {
                let made = T::select(self, id);
                assert(f(id) == Some(made));
                res.push(made);
            } else {
                assert(f(id) is None);
            }
            assert(res@ == ids@.take(i + 1).filter_map(f));
            i = i + 1;
        }
        proof {
            assert(ids@.take(ids.len() as int) =~= ids@);
            assert(res@ == self.query_results::<T>(ids@));
        }
        res
    }
}

/// A query over a view: which entities it takes, and what it makes of each
/// entity that it takes.
pub trait ViewQuery<'a, C: Component>: Sized {
    /// Whether the query takes the entity from a view in the state `model`.
    spec fn takes(model: ViewModel<C>, entity_id: EntityId) -> bool;

    /// What the query makes of the entity of the view.
    spec fn made(view: &'a View<C>, entity_id: EntityId) -> Self;

    /// Whether the query takes the entity.
    fn filter(view: &View<C>, entity_id: EntityId) -> (res: bool)
        ensures
            res == Self::takes(view.model(), entity_id),
    ;

    /// What the query makes of the entity.
    fn select(view: &'a View<C>, entity_id: EntityId) -> (res: Self)
        ensures
            res == Self::made(view, entity_id),
    ;
}

} // verus!
