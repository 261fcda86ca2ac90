//! An entity: a set of components, each under its component ID.

use vstd::prelude::*;
use std::collections::HashMap;
use crate::worker::ComponentId;
use vstd::std_specs::iter::IteratorSpec;
use crate::worker::utils::{decimal, push_decimal};

verus! {

broadcast use {vstd::std_specs::hash::group_hash_axioms, vstd::seq_lib::group_seq_properties};

/// An entity's components, at most one for each component ID.
#[derive(Debug)]
pub struct Entity<C> {
    components: HashMap<ComponentId, C>,
}

/// The message of the error returned when a second component with the same ID
/// is added to an entity.
pub open spec fn duplicate_component_message(id: ComponentId) -> Seq<char> {
    "Duplicate component with ID "@ + decimal(id as nat) + " added to `Entity`."@
}

impl<C> View for Entity<C> {
    type V = Map<ComponentId, C>;

    closed spec fn view(&self) -> Map<ComponentId, C> {
        self.components@
    }
}

impl<C> Default for Entity<C> {
    /// An entity without components.
    fn default() -> (res: Self)
        ensures
            res@ == Map::<ComponentId, C>::empty(),
    {
        Entity { components: HashMap::new() }
    }
}

impl<C> Entity<C> {
    /// An entity without components.
    pub fn new() -> (res: Self)
        ensures
            res@ == Map::<ComponentId, C>::empty(),
    {
        Entity { components: HashMap::new() }
    }

    fn pre_add_check(&self, id: ComponentId) -> (res: Result<(), String>)
        ensures
            res is Ok <==> !self@.contains_key(id),
            res matches Err(msg) ==> msg@ == duplicate_component_message(id),
    {
        if self.components.contains_key(&id) {
            let mut msg = String::from_str("Duplicate component with ID ");
            push_decimal(&mut msg, id as u64);
            msg.append(" added to `Entity`.");
            return Err(msg);
        }
        Ok(())
    }

    /// Adds `component` under `id`. An entity holds at most one component per
    /// ID: adding a second one fails, and the entity is left unchanged.
    pub fn add(&mut self, id: ComponentId, component: C) -> (res: Result<(), String>)
        ensures
            res is Ok <==> !old(self)@.contains_key(id),
            res is Ok ==> final(self)@ == old(self)@.insert(id, component),
            res matches Err(msg) ==> msg@ == duplicate_component_message(id) && final(self)@
                == old(self)@,
    {
        match self.pre_add_check(id) {
            Ok(()) => {
                self.components.insert(id, component);
                Ok(())
            },
            Err(e) => Err(e),
        }
    }

    /// The component with ID `id`, if the entity has one.
    pub fn get(&self, id: ComponentId) -> (res: Option<&C>)
        ensures
            match res {
                Some(c) => self@.contains_key(id) && *c == self@[id],
                None => !self@.contains_key(id),
            },
    {
        self.components.get(&id)
    }

    /// Whether the entity has a component with ID `id`.
    pub fn has(&self, id: ComponentId) -> (res: bool)
        ensures
            res == self@.contains_key(id),
    {
        self.components.contains_key(&id)
    }

    /// The number of components of the entity.
    pub fn len(&self) -> (res: usize)
        ensures
            res == self@.len(),
    {
        self.components.len()
    }

    /// The entity with the components of `components`, added in order: fails
    /// at the first component whose ID an earlier one already took.
    pub fn from_components(components: Vec<(ComponentId, C)>) -> (res: Result<Self, String>)
        ensures
            ({
                let ids = components@.map_values(|p: (ComponentId, C)| p.0);
                &&& res is Ok <==> ids.no_duplicates()
                &&& res matches Ok(entity) ==> {
                    &&& entity@.dom() == ids.to_set()
                    &&& forall|i: int| 0 <= i < components@.len() ==> #[trigger] entity@[components@[i].0]
                        == components@[i].1
                }
                &&& res matches Err(msg) ==> exists|j: int|
                    0 <= j < ids.len() && ids.take(j).no_duplicates() && ids.take(j).contains(
                        ids[j],
                    ) && msg@ == duplicate_component_message(#[trigger] ids[j])
            }),
    {
        let ghost all = components@;
        let ghost ids = components@.map_values(|p: (ComponentId, C)| p.0);
        let mut entity = Entity::new();
        for pair in it: components.into_iter()
            invariant
                it.seq() == all,
                ids == all.map_values(|p: (ComponentId, C)| p.0),
                ids.take(it.index() as int).no_duplicates(),
                entity@.dom() == ids.take(it.index() as int).to_set(),
                forall|i: int| 0 <= i < it.index() ==> #[trigger] entity@[all[i].0] == all[i].1,
        {
            let ghost k = it.index() as int;
            let (id, data) = pair;
            proof {
                assert(ids[k] == id);
                assert(ids.take(k + 1) =~= ids.take(k).push(id));
            }
            match entity.add(id, data) {
                Ok(()) => {
                    proof {
                        assert(!ids.take(k).contains(id)) by {
                            if ids.take(k).contains(id) {
                                assert(ids.take(k).to_set().contains(id));
                            }
                        }
                        assert(entity@.dom() =~= ids.take(k + 1).to_set());
                        assert forall|i: int| 0 <= i < k + 1 implies #[trigger] entity@[all[i].0]
                            == all[i].1 by {
                            if i < k {
                                assert(ids.take(k)[i] == all[i].0);
                                assert(all[i].0 != id);
                            }
                        }
                    }
                },
                Err(e) => {
                    proof {
                        assert(ids.take(k).to_set().contains(id));
                        assert(ids.take(k).contains(id));
                        assert(!ids.no_duplicates()) by {
                            let i = choose|i: int| 0 <= i < k && ids.take(k)[i] == id;
                            assert(ids[i] == ids[k]);
                        }
                    }
                    return Err(e);
                },
            }
        }
        proof {
            assert(ids.take(all.len() as int) =~= ids);
        }
        Ok(entity)
    }

    /// The entity's components with their IDs, each once, in no particular
    /// order.
    pub fn into_components(self) -> (res: Vec<(ComponentId, C)>)
        ensures
            res@.len() == self@.len(),
            forall|i: int| 0 <= i < res@.len() ==> self@.contains_key(#[trigger] res@[i].0)
                && self@[res@[i].0] == res@[i].1,
            forall|id: ComponentId| #[trigger] self@.contains_key(id) ==> exists|i: int|
                0 <= i < res@.len() && res@[i].0 == id,
            forall|i: int, j: int| 0 <= i < j < res@.len() ==> res@[i].0 != res@[j].0,
    {
        let ghost whole = self@;
        let mut components = self.components;
        let mut ids: Vec<ComponentId> = Vec::new();
        let ghost keys = vstd::std_specs::hash::spec_keys_iter(&components).remaining();
        for id in it: components.keys()
            invariant
                it.seq() == keys,
                ids@ == keys.take(it.index() as int).unref(),
        {
            ids.push(*id);
        }
        proof {
            assert(keys.take(keys.len() as int) =~= keys);
            assert(ids@.to_set() == whole.dom());
            assert(ids@.no_duplicates());
        }
        let mut res: Vec<(ComponentId, C)> = Vec::new();
        let mut k: usize = 0;
        while k < ids.len()
            invariant
                0 <= k <= ids.len(),
                ids@.no_duplicates(),
                ids@.to_set() == whole.dom(),
                res@.len() == k,
                forall|i: int| 0 <= i < k ==> #[trigger] res@[i].0 == ids@[i] && whole[ids@[i]]
                    == res@[i].1,
                components@.dom() == whole.dom().difference(ids@.take(k as int).to_set()),
                forall|c: ComponentId| #[trigger] components@.contains_key(c) ==> components@[c]
                    == whole[c],
            decreases ids.len() - k,
        {
            let id = ids[k];
            proof {
                assert(ids@.to_set().contains(id));
                assert(!ids@.take(k as int).contains(id)) by {
                    if ids@.take(k as int).contains(id) {
                        let i = choose|i: int| 0 <= i < k && ids@.take(k as int)[i] == id;
                        assert(ids@[i] == ids@[k as int]);
                    }
                }
                assert(components@.contains_key(id));
                assert(ids@.take(k + 1) =~= ids@.take(k as int).push(id));
            }
            let component = components.remove(&id).unwrap();
            res.push((id, component));
            proof {
                assert(components@.dom() =~= whole.dom().difference(
                    ids@.take(k + 1).to_set(),
                ));
            }
            k = k + 1;
        }
        proof {
            assert forall|i: int, j: int| 0 <= i < j < res@.len() implies res@[i].0
                != res@[j].0 by {
                assert(res@[i].0 == ids@[i]);
                assert(res@[j].0 == ids@[j]);
            }
            assert forall|id: ComponentId| #[trigger] whole.contains_key(id) implies exists|i: int|
                0 <= i < res@.len() && res@[i].0 == id by {
                assert(ids@.to_set().contains(id));
                let i = choose|i: int| 0 <= i < ids@.len() && ids@[i] == id;
                assert(res@[i].0 == id);
            }
            assert(whole.dom().len() == ids@.len()) by {
                ids@.unique_seq_to_set();
            }
        }
        res
    }
}

} // verus!
