//! A builder for entities that carry the well-known components SpatialOS
//! expects: position, access control list, and optionally metadata and
//! persistence.

use vstd::prelude::*;
use std::collections::HashMap;
use crate::worker::ComponentId;
use crate::worker::entity::{duplicate_component_message, Entity};

verus! {

broadcast use {vstd::std_specs::hash::group_hash_axioms, vstd::seq_lib::group_seq_properties};

/// The ID of the well-known EntityAcl component.
pub const ENTITY_ACL_COMPONENT_ID: ComponentId = 50;

/// The ID of the well-known Metadata component.
pub const METADATA_COMPONENT_ID: ComponentId = 53;

/// The ID of the well-known Position component.
pub const POSITION_COMPONENT_ID: ComponentId = 54;

/// The ID of the well-known Persistence component.
pub const PERSISTENCE_COMPONENT_ID: ComponentId = 55;

/// A component of a built entity: one that user code added, or one of the
/// well-known components that the builder adds.
#[derive(Debug)]
pub enum EntityComponent<D> {
    /// A component added by user code.
    Data(D),
    /// The entity's position, each coordinate held by the bit pattern of its
    /// `f64` value.
    Position { x: u64, y: u64, z: u64 },
    /// Who may read the entity, and which layer may write each component.
    EntityAcl { read: Vec<String>, write: HashMap<ComponentId, String> },
    /// The entity's type.
    Metadata { entity_type: String },
    /// The entity is kept in snapshots.
    Persistence,
}

/// The texts of a list of strings.
pub open spec fn texts(v: Seq<String>) -> Seq<Seq<char>> {
    v.map_values(|s: String| s@)
}

/// The texts of a map of strings.
pub open spec fn text_map(m: Map<ComponentId, String>) -> Map<ComponentId, Seq<char>> {
    m.map_values(|s: String| s@)
}

/// The component ID that `build` finds already taken, if any: the builder
/// adds Position, then EntityAcl, then Metadata if set, then Persistence if
/// set, and a user component with one of those IDs makes it fail there.
pub open spec fn first_taken_id<D>(
    components: Map<ComponentId, EntityComponent<D>>,
    has_metadata: bool,
    persistent: bool,
) -> Option<ComponentId> {
    if components.contains_key(POSITION_COMPONENT_ID) {
        Some(POSITION_COMPONENT_ID)
    } else if components.contains_key(ENTITY_ACL_COMPONENT_ID) {
        Some(ENTITY_ACL_COMPONENT_ID)
    } else if has_metadata && components.contains_key(METADATA_COMPONENT_ID) {
        Some(METADATA_COMPONENT_ID)
    } else if persistent && components.contains_key(PERSISTENCE_COMPONENT_ID) {
        Some(PERSISTENCE_COMPONENT_ID)
    } else {
        None
    }
}

/// Builds an entity with a position, an access control list, and optionally
/// metadata, persistence and user components.
pub struct EntityBuilder<D> {
    entity: Entity<EntityComponent<D>>,
    position: (u64, u64, u64),
    is_persistent: bool,
    metadata: Option<String>,
    write_permissions: HashMap<ComponentId, String>,
    read_permissions: Vec<String>,
    error: Option<String>,
}

impl<D> EntityBuilder<D> {
    /// The components added so far by user code.
    pub closed spec fn components(&self) -> Map<ComponentId, EntityComponent<D>> {
        self.entity@
    }

    /// The bit patterns of the position's coordinates.
    pub closed spec fn position(&self) -> (u64, u64, u64) {
        self.position
    }

    /// Whether the entity will be persistent.
    pub closed spec fn persistent(&self) -> bool {
        self.is_persistent
    }

    /// The entity type, if metadata was set.
    pub closed spec fn metadata(&self) -> Option<Seq<char>> {
        match self.metadata {
            Some(m) => Some(m@),
            None => None,
        }
    }

    /// The layer that may write each component.
    pub closed spec fn write_access(&self) -> Map<ComponentId, Seq<char>> {
        text_map(self.write_permissions@)
    }

    /// The layers that may read the entity.
    pub closed spec fn read_access(&self) -> Set<Seq<char>> {
        texts(self.read_permissions@).to_set()
    }

    /// The error of the last user component that could not be added.
    pub closed spec fn error(&self) -> Option<Seq<char>> {
        match self.error {
            Some(e) => Some(e@),
            None => None,
        }
    }

    /// The builder's internal consistency: each readable layer is listed once,
    /// and every layer that may write a component may read the entity.
    pub closed spec fn wf(&self) -> bool {
        &&& texts(self.read_permissions@).no_duplicates()
        &&& forall|id: ComponentId| #[trigger]
            self.write_access().contains_key(id) ==> self.read_access().contains(
                self.write_access()[id],
            )
    }

    /// A builder for an entity at the position with coordinates of bit
    /// patterns `x`, `y` and `z`, whose position may be written by the layer
    /// `position_write_layer`.
    pub fn new(x: u64, y: u64, z: u64, position_write_layer: String) -> (res: Self)
        ensures
            res.wf(),
            res.components() == Map::<ComponentId, EntityComponent<D>>::empty(),
            res.position() == (x, y, z),
            !res.persistent(),
            res.metadata() is None,
            res.error() is None,
            res.write_access() == Map::<ComponentId, Seq<char>>::empty().insert(
                POSITION_COMPONENT_ID,
                position_write_layer@,
            ),
            res.read_access() == Set::<Seq<char>>::empty().insert(position_write_layer@),
    {
        let mut builder = EntityBuilder {
            entity: Entity::new(),
            position: (x, y, z),
            is_persistent: false,
            metadata: None,
            write_permissions: HashMap::new(),
            read_permissions: Vec::new(),
            error: None,
        };
        proof {
            assert(texts(builder.read_permissions@) =~= Seq::<Seq<char>>::empty());
            assert(builder.write_access() =~= Map::<ComponentId, Seq<char>>::empty());
        }
        builder.add_write_access(POSITION_COMPONENT_ID, position_write_layer);
        proof {
            assert(builder.write_access() =~= Map::<ComponentId, Seq<char>>::empty().insert(
                POSITION_COMPONENT_ID,
                position_write_layer@,
            ));
            assert(builder.read_access() =~= Set::<Seq<char>>::empty().insert(
                position_write_layer@,
            ));
        }
        builder
    }

    /// Adds a readable layer, once.
    fn insert_read_layer(&mut self, layer: String)
        requires
            old(self).wf(),
        ensures
            final(self).wf(),
            final(self).read_access() == old(self).read_access().insert(layer@),
            final(self).entity == old(self).entity,
            final(self).position == old(self).position,
            final(self).is_persistent == old(self).is_persistent,
            final(self).metadata == old(self).metadata,
            final(self).write_permissions == old(self).write_permissions,
            final(self).error == old(self).error,
    {
        let mut i: usize = 0;
        while i < self.read_permissions.len()
            invariant
                0 <= i <= self.read_permissions.len(),
                self.wf(),
                forall|j: int| 0 <= j < i ==> self.read_permissions@[j]@ != layer@,
            decreases self.read_permissions.len() - i,
        {
            if self.read_permissions[i] == layer {
                proof {
                    assert(texts(self.read_permissions@)[i as int] == layer@);
                    assert(self.read_access() =~= self.read_access().insert(layer@));
                }
                return;
            }
            i = i + 1;
        }
        let ghost before = texts(self.read_permissions@);
        proof {
            assert(!before.contains(layer@)) by {
                if before.contains(layer@) {
                    let k = choose|k: int| 0 <= k < before.len() && before[k] == layer@;
                    assert(self.read_permissions@[k]@ == layer@);
                }
            }
        }
        self.read_permissions.push(layer);
        proof {
            assert(texts(self.read_permissions@) =~= before.push(layer@));
            assert(self.read_access() =~= before.to_set().insert(layer@));
            assert forall|id: ComponentId| #[trigger] self.write_access().contains_key(id) implies
                self.read_access().contains(self.write_access()[id]) by {
                assert(old(self).read_access().contains(old(self).write_access()[id]));
            }
        }
    }

    fn add_write_access(&mut self, id: ComponentId, layer: String)
        requires
            old(self).wf(),
        ensures
            final(self).wf(),
            final(self).write_access() == old(self).write_access().insert(id, layer@),
            final(self).read_access() == old(self).read_access().insert(layer@),
            final(self).entity == old(self).entity,
            final(self).position == old(self).position,
            final(self).is_persistent == old(self).is_persistent,
            final(self).metadata == old(self).metadata,
            final(self).error == old(self).error,
    {
        let copy = layer.clone();
        self.insert_read_layer(copy);
        self.write_permissions.insert(id, layer);
        proof {
            assert(self.write_access() =~= old(self).write_access().insert(id, layer@));
        }
    }

    /// Adds a user component with ID `id`, writable by `write_layer`. If the
    /// entity already has a component with that ID, the failure is kept and
    /// reported by `build`.
    pub fn add_component(&mut self, id: ComponentId, data: D, write_layer: String)
        requires
            old(self).wf(),
        ensures
            final(self).wf(),
            old(self).components().contains_key(id) ==> final(self).components() == old(
                self,
            ).components() && final(self).error() == Some(duplicate_component_message(id)),
            !old(self).components().contains_key(id) ==> final(self).components() == old(
                self,
            ).components().insert(id, EntityComponent::Data(data)) && final(self).error() == old(
                self,
            ).error(),
            final(self).write_access() == old(self).write_access().insert(id, write_layer@),
            final(self).read_access() == old(self).read_access().insert(write_layer@),
            final(self).position() == old(self).position(),
            final(self).persistent() == old(self).persistent(),
            final(self).metadata() == old(self).metadata(),
    {
        match self.entity.add(id, EntityComponent::Data(data)) {
            Ok(()) => {},
            Err(e) => {
                self.error = Some(e);
            },
        }
        proof {
            assert(self.write_access() == old(self).write_access());
            assert(self.read_access() == old(self).read_access());
        }
        self.add_write_access(id, write_layer);
    }

    /// Makes the entity persistent, with the Persistence component writable
    /// by `write_layer`.
    pub fn set_persistent(&mut self, write_layer: String)
        requires
            old(self).wf(),
        ensures
            final(self).wf(),
            final(self).persistent(),
            final(self).write_access() == old(self).write_access().insert(
                PERSISTENCE_COMPONENT_ID,
                write_layer@,
            ),
            final(self).read_access() == old(self).read_access().insert(write_layer@),
            final(self).components() == old(self).components(),
            final(self).position() == old(self).position(),
            final(self).metadata() == old(self).metadata(),
            final(self).error() == old(self).error(),
    {
        self.is_persistent = true;
        proof {
            assert(self.write_access() == old(self).write_access());
            assert(self.read_access() == old(self).read_access());
        }
        self.add_write_access(PERSISTENCE_COMPONENT_ID, write_layer);
    }

    /// Gives the entity the type `entity_type`, with the Metadata component
    /// writable by `write_layer`.
    pub fn set_metadata(&mut self, entity_type: String, write_layer: String)
        requires
            old(self).wf(),
        ensures
            final(self).wf(),
            final(self).metadata() == Some(entity_type@),
            final(self).write_access() == old(self).write_access().insert(
                METADATA_COMPONENT_ID,
                write_layer@,
            ),
            final(self).read_access() == old(self).read_access().insert(write_layer@),
            final(self).components() == old(self).components(),
            final(self).position() == old(self).position(),
            final(self).persistent() == old(self).persistent(),
            final(self).error() == old(self).error(),
    {
        self.metadata = Some(entity_type);
        proof {
            assert(self.write_access() == old(self).write_access());
            assert(self.read_access() == old(self).read_access());
        }
        self.add_write_access(METADATA_COMPONENT_ID, write_layer);
    }

    /// Lets the layer `layer` read the entity.
    pub fn add_read_access(&mut self, layer: String)
        requires
            old(self).wf(),
        ensures
            final(self).wf(),
            final(self).read_access() == old(self).read_access().insert(layer@),
            final(self).write_access() == old(self).write_access(),
            final(self).components() == old(self).components(),
            final(self).position() == old(self).position(),
            final(self).persistent() == old(self).persistent(),
            final(self).metadata() == old(self).metadata(),
            final(self).error() == old(self).error(),
    {
        self.insert_read_layer(layer);
    }

    /// Lets the layer `layer` write the entity's access control list.
    pub fn set_entity_acl_write_access(&mut self, layer: String)
        requires
            old(self).wf(),
        ensures
            final(self).wf(),
            final(self).write_access() == old(self).write_access().insert(
                ENTITY_ACL_COMPONENT_ID,
                layer@,
            ),
            final(self).read_access() == old(self).read_access().insert(layer@),
            final(self).components() == old(self).components(),
            final(self).position() == old(self).position(),
            final(self).persistent() == old(self).persistent(),
            final(self).metadata() == old(self).metadata(),
            final(self).error() == old(self).error(),
    {
        self.add_write_access(ENTITY_ACL_COMPONENT_ID, layer);
    }

    /// Builds the entity: fails with the error of the last user component
    /// that could not be added, else with the duplicate-component error of
    /// the first well-known component whose ID a user component took, else
    /// gives the user components together with Position, EntityAcl (holding
    /// the read and write access given), and Metadata and Persistence where
    /// they were set.
    pub fn build(self) -> (res: Result<Entity<EntityComponent<D>>, String>)
        requires
            self.wf(),
        ensures
            self.error() matches Some(e) ==> res matches Err(msg) && msg@ == e,
            self.error() is None ==> match first_taken_id(
                self.components(),
                self.metadata() is Some,
                self.persistent(),
            ) {
                Some(id) => res matches Err(msg) && msg@ == duplicate_component_message(id),
                None => res matches Ok(entity) && {
                    &&& forall|id: ComponentId| #[trigger]
                        self.components().contains_key(id) ==> entity@.contains_key(id)
                            && entity@[id] == self.components()[id]
                    &&& entity@.dom() == self.components().dom().insert(
                        POSITION_COMPONENT_ID,
                    ).insert(ENTITY_ACL_COMPONENT_ID).union(
                        if self.metadata() is Some {
                            set![METADATA_COMPONENT_ID]
                        } else {
                            Set::empty()
                        },
                    ).union(
                        if self.persistent() {
                            set![PERSISTENCE_COMPONENT_ID]
                        } else {
                            Set::empty()
                        },
                    )
                    &&& entity@[POSITION_COMPONENT_ID] == EntityComponent::<D>::Position {
                        x: self.position().0,
                        y: self.position().1,
                        z: self.position().2,
                    }
                    &&& entity@[ENTITY_ACL_COMPONENT_ID] matches EntityComponent::EntityAcl {
                        read,
                        write,
                    } && texts(read@).to_set() == self.read_access() && texts(
                        read@,
                    ).no_duplicates() && text_map(write@) == self.write_access()
                    &&& self.metadata() matches Some(t) ==> entity@[METADATA_COMPONENT_ID] matches EntityComponent::Metadata { entity_type } && entity_type@ == t
                    &&& self.persistent() ==> entity@[PERSISTENCE_COMPONENT_ID]
                        == EntityComponent::<D>::Persistence
                },
            },
    {
        let EntityBuilder {
            entity,
            position,
            is_persistent,
            metadata,
            write_permissions,
            read_permissions,
            error,
        } = self;
        if let Some(e) = error {
            return Err(e);
        }
        let mut entity = entity;
        let (x, y, z) = position;
        match entity.add(POSITION_COMPONENT_ID, EntityComponent::Position { x, y, z }) {
            Ok(()) => {},
            Err(e) => return Err(e),
        }
        match entity.add(
            ENTITY_ACL_COMPONENT_ID,
            EntityComponent::EntityAcl { read: read_permissions, write: write_permissions },
        ) {
            Ok(()) => {},
            Err(e) => return Err(e),
        }
        match metadata {
            Some(entity_type) => {
                match entity.add(METADATA_COMPONENT_ID, EntityComponent::Metadata { entity_type }) {
                    Ok(()) => {},
                    Err(e) => return Err(e),
                }
            },
            None => {},
        }
        if is_persistent {
            match entity.add(PERSISTENCE_COMPONENT_ID, EntityComponent::Persistence) {
                Ok(()) => {},
                Err(e) => return Err(e),
            }
        }
        proof {
            assert(entity@.dom() =~= self.components().dom().insert(POSITION_COMPONENT_ID).insert(
                ENTITY_ACL_COMPONENT_ID,
            ).union(
                if self.metadata() is Some {
                    set![METADATA_COMPONENT_ID]
                } else {
                    Set::empty()
                },
            ).union(
                if self.persistent() {
                    set![PERSISTENCE_COMPONENT_ID]
                } else {
                    Set::empty()
                },
            ));
        }
        Ok(entity)
    }
}

/// Every layer that may write a component of the entity being built may also
/// read the entity.
pub proof fn lemma_writers_can_read<D>(builder: EntityBuilder<D>, id: ComponentId)
    requires
        builder.wf(),
        builder.write_access().contains_key(id),
    ensures
        builder.read_access().contains(builder.write_access()[id]),
{
}

} // verus!
