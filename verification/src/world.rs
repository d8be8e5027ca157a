//! The entity/component store.
//!
//! Entities are numbered from a counter; each entity owns a list of
//! components stored as tagged values — a static kind identifier next to
//! the value — with pairwise-distinct kinds, so lookups by kind replace
//! any runtime type casting.  The registry keeps insertion order, and
//! every query's result order is exactly the registry's.

use vstd::prelude::*;

verus! {

/// A value storable in the [`World`]: it names its kind with a static
/// tag and can encode itself for serialization.  Implemented by the
/// application's component types; the store itself relies only on the
/// tags it keeps next to each value.
pub trait Component: Sized {
    /// The static kind tag of this component's type.  Two components of
    /// the same kind never share an entity.
    fn kind(&self) -> u64;

    /// Encode the component for serialization.
    fn encode(&self) -> Vec<u8>;
}

/// First registry index at or after `lo` holding `id`.
pub open spec fn spec_find_entity_from<C>(
    registry: Seq<(u32, Vec<(u64, C)>)>,
    entity_id: u32,
    lo: int,
) -> Option<int>
    decreases registry.len() - lo,
{
    if lo < 0 || lo >= registry.len() {
        None
    } else if registry[lo].0 == entity_id {
        Some(lo)
    } else {
        spec_find_entity_from(registry, entity_id, lo + 1)
    }
}

/// First component index at or after `lo` whose kind tag is `kind`.
pub open spec fn spec_find_kind_from<C>(
    components: Seq<(u64, C)>,
    kind: u64,
    lo: int,
) -> Option<int>
    decreases components.len() - lo,
{
    if lo < 0 || lo >= components.len() {
        None
    } else if components[lo].0 == kind {
        Some(lo)
    } else {
        spec_find_kind_from(components, kind, lo + 1)
    }
}

/// What `spec_find_entity_from` finds: the first index with the id.
pub proof fn lemma_find_entity_from<C>(
    registry: Seq<(u32, Vec<(u64, C)>)>,
    entity_id: u32,
    lo: int,
)
    requires
        0 <= lo,
    ensures
        match spec_find_entity_from(registry, entity_id, lo) {
            Some(i) => lo <= i < registry.len() && registry[i].0 == entity_id && (forall|j: int|
                lo <= j < i ==> (#[trigger] registry[j]).0 != entity_id),
            None => forall|j: int|
                lo <= j < registry.len() ==> (#[trigger] registry[j]).0 != entity_id,
        },
    decreases registry.len() - lo,
{
    if lo < registry.len() && registry[lo].0 != entity_id {
        lemma_find_entity_from(registry, entity_id, lo + 1);
    }
}

/// What `spec_find_kind_from` finds: the first index with the kind.
pub proof fn lemma_find_kind_from<C>(components: Seq<(u64, C)>, kind: u64, lo: int)
    requires
        0 <= lo,
    ensures
        match spec_find_kind_from(components, kind, lo) {
            Some(i) => lo <= i < components.len() && components[i].0 == kind && (forall|j: int|
                lo <= j < i ==> (#[trigger] components[j]).0 != kind),
            None => forall|j: int|
                lo <= j < components.len() ==> (#[trigger] components[j]).0 != kind,
        },
    decreases components.len() - lo,
{
    if lo < components.len() && components[lo].0 != kind {
        lemma_find_kind_from(components, kind, lo + 1);
    }
}

/// No two components of the sequence share a kind tag.
pub open spec fn spec_unique_kinds<C>(components: Seq<(u64, C)>) -> bool {
    forall|a: int, b: int|
        0 <= a < b < components.len() ==> (#[trigger] components[a]).0 != (
        #[trigger] components[b]).0
}

/// The registry: entities by id, each with its tagged components.
#[derive(Clone, Debug)]
pub struct World<C> {
    pub registry: Vec<(u32, Vec<(u64, C)>)>,
    pub id_counter: u32,
}

impl<C> World<C> {
    /// Where `entity_id` sits in the registry, if present.
    pub open spec fn spec_find(self, entity_id: u32) -> Option<int> {
        spec_find_entity_from(self.registry@, entity_id, 0)
    }

    /// Structural invariant: entity ids are pairwise distinct, never
    /// zero, never above the counter; each entity's component kinds are
    /// pairwise distinct.
    pub open spec fn wf(self) -> bool {
        &&& (forall|a: int, b: int|
            0 <= a < b < self.registry@.len() ==> (#[trigger] self.registry@[a]).0 != (
            #[trigger] self.registry@[b]).0)
        &&& (forall|a: int|
            0 <= a < self.registry@.len() ==> 1 <= (#[trigger] self.registry@[a]).0
                <= self.id_counter)
        &&& (forall|a: int|
            0 <= a < self.registry@.len() ==> spec_unique_kinds(
                (#[trigger] self.registry@[a]).1@,
            ))
    }

    /// An empty registry.
    pub fn new() -> (r: World<C>)
        ensures
            r.wf(),
            r.registry@.len() == 0,
            r.id_counter == 0,
    {
        World { registry: Vec::new(), id_counter: 0 }
    }

    /// Where `entity_id` sits in the registry, if present.
    fn find_entity(&self, entity_id: u32) -> (r: Option<usize>)
        ensures
            match r {
                Some(i) => self.spec_find(entity_id) == Some(i as int),
                None => self.spec_find(entity_id) is None,
            },
    {
        let n = self.registry.len();
        let mut i: usize = 0;
        while i < n
            invariant
                n == self.registry@.len(),
                i <= n,
                spec_find_entity_from(self.registry@, entity_id, 0) == spec_find_entity_from(
                    self.registry@,
                    entity_id,
                    i as int,
                ),
            decreases n - i,
        {
            if self.registry[i].0 == entity_id {
                return Some(i);
            }
            i = i + 1;
        }
        None
    }

    /// Register a new entity with no components and return its id, one
    /// above the previous entity's.
    pub fn add_entity(&mut self) -> (r: u32)
        requires
            old(self).wf(),
            old(self).id_counter < u32::MAX,
        ensures
            final(self).wf(),
            r == old(self).id_counter + 1,
            final(self).id_counter == r,
            final(self).registry@.len() == old(self).registry@.len() + 1,
            forall|i: int|
                0 <= i < old(self).registry@.len() ==> final(self).registry@[i] == old(
                    self,
                ).registry@[i],
            final(self).registry@[old(self).registry@.len() as int].0 == r,
            final(self).registry@[old(self).registry@.len() as int].1@ == Seq::<(u64, C)>::empty(),
            old(self).spec_find(r) is None,
    {
        proof {
            lemma_find_entity_from(self.registry@, (self.id_counter + 1) as u32, 0);
        }
        self.id_counter = self.id_counter + 1;
        let components: Vec<(u64, C)> = Vec::new();
        self.registry.push((self.id_counter, components));
        self.id_counter
    }

    /// Drop an entity and all its components; without the entity,
    /// nothing changes.
    pub fn remove_entity(&mut self, entity_id: u32)
        requires
            old(self).wf(),
        ensures
            final(self).wf(),
            final(self).id_counter == old(self).id_counter,
            match old(self).spec_find(entity_id) {
                Some(i) => final(self).registry@ == old(self).registry@.remove(i),
                None => *final(self) == *old(self),
            },
    {
        match self.find_entity(entity_id) {
            Some(i) => {
                proof {
                    lemma_find_entity_from(self.registry@, entity_id, 0);
                }
                let ghost old_registry = self.registry@;
                self.registry.remove(i);
                proof {
                    assert forall|a: int, b: int|
                        0 <= a < b < self.registry@.len() implies (
                    #[trigger] self.registry@[a]).0 != (#[trigger] self.registry@[b]).0 by {
                        assert(self.registry@[a] == old_registry[if a < i as int {
                            a
                        } else {
                            a + 1
                        }]);
                        assert(self.registry@[b] == old_registry[if b < i as int {
                            b
                        } else {
                            b + 1
                        }]);
                    }
                    assert forall|a: int| 0 <= a < self.registry@.len() implies 1 <= (
                    #[trigger] self.registry@[a]).0 <= self.id_counter && spec_unique_kinds(
                        self.registry@[a].1@,
                    ) by {
                        assert(self.registry@[a] == old_registry[if a < i as int {
                            a
                        } else {
                            a + 1
                        }]);
                    }
                }
            },
            None => {},
        }
    }

    /// Attach a component under its kind tag, unless the entity already
    /// holds one of the same kind; without the entity, nothing changes.
    pub fn add_component(&mut self, entity_id: u32, kind: u64, component: C)
        requires
            old(self).wf(),
        ensures
            final(self).wf(),
            final(self).id_counter == old(self).id_counter,
            final(self).registry@.len() == old(self).registry@.len(),
            match old(self).spec_find(entity_id) {
                Some(i) => {
                    if (spec_find_kind_from(old(self).registry@[i].1@, kind, 0) is Some) {
                        *final(self) == *old(self)
                    } else {
                        &&& (forall|j: int|
                            0 <= j < old(self).registry@.len() && j != i
                                ==> #[trigger] final(self).registry@[j] == old(self).registry@[j])
                        &&& final(self).registry@[i].0 == entity_id
                        &&& final(self).registry@[i].1@ == old(self).registry@[i].1@.push(
                            (kind, component),
                        )
                    }
                },
                None => *final(self) == *old(self),
            },
    {
        let i = match self.find_entity(entity_id) {
            Some(i) => i,
            None => {
                return ;
            },
        };
        proof {
            lemma_find_entity_from(self.registry@, entity_id, 0);
        }
        match find_kind(&self.registry[i].1, kind) {
            Some(_) => {
                return ;
            },
            None => {},
        }
        proof {
            lemma_find_kind_from(self.registry@[i as int].1@, kind, 0);
        }
        let ghost old_registry = self.registry@;
        let entry = &mut self.registry[i];
        entry.1.push((kind, component));
        proof {
            assert(self.registry@[i as int].1@ == old_registry[i as int].1@.push(
                (kind, component),
            ));
            assert forall|a: int|
                0 <= a < self.registry@.len() implies spec_unique_kinds(
                (#[trigger] self.registry@[a]).1@,
            ) by {
                if a == i {
                    let comps = self.registry@[i as int].1@;
                    let old_comps = old_registry[i as int].1@;
                    assert(spec_unique_kinds(old_registry[a].1@));
                    assert forall|x: int, y: int| 0 <= x < y < comps.len() implies (
                    #[trigger] comps[x]).0 != (#[trigger] comps[y]).0 by {
                        assert(comps[x] == old_comps[x]);
                        if y == comps.len() - 1 {
                            assert(comps[y] == (kind, component));
                            assert(old_comps[x].0 != kind);
                        } else {
                            assert(comps[y] == old_comps[y]);
                            assert(old_comps[x].0 != old_comps[y].0);
                        }
                    }
                } else {
                    assert(self.registry@[a] == old_registry[a]);
                    assert(spec_unique_kinds(old_registry[a].1@));
                }
            }
        }
    }

    /// Detach the entity's component of the given kind, if any, moving
    /// the entity's last component into its place.
    pub fn remove_component(&mut self, entity_id: u32, kind: u64)
        requires
            old(self).wf(),
        ensures
            final(self).wf(),
            final(self).id_counter == old(self).id_counter,
            final(self).registry@.len() == old(self).registry@.len(),
            match old(self).spec_find(entity_id) {
                Some(i) => {
                    match spec_find_kind_from(old(self).registry@[i].1@, kind, 0) {
                        Some(k) => {
                            &&& (forall|j: int|
                                0 <= j < old(self).registry@.len() && j != i
                                    ==> #[trigger] final(self).registry@[j] == old(
                                    self,
                                ).registry@[j])
                            &&& final(self).registry@[i].0 == entity_id
                            &&& final(self).registry@[i].1@ == old(self).registry@[i].1@.update(
                                k,
                                old(self).registry@[i].1@.last(),
                            ).drop_last()
                        },
                        None => *final(self) == *old(self),
                    }
                },
                None => *final(self) == *old(self),
            },
    {
        let i = match self.find_entity(entity_id) {
            Some(i) => i,
            None => {
                return ;
            },
        };
        proof {
            lemma_find_entity_from(self.registry@, entity_id, 0);
        }
        let k = match find_kind(&self.registry[i].1, kind) {
            Some(k) => k,
            None => {
                return ;
            },
        };
        proof {
            lemma_find_kind_from(self.registry@[i as int].1@, kind, 0);
        }
        let ghost old_registry = self.registry@;
        let entry = &mut self.registry[i];
        entry.1.swap_remove(k);
        proof {
            assert(self.registry@[i as int].0 == old_registry[i as int].0);
            assert(old_registry[i as int].0 == entity_id);
            assert(self.registry@[i as int].1@ == old_registry[i as int].1@.update(
                k as int,
                old_registry[i as int].1@.last(),
            ).drop_last());
            assert forall|a: int|
                0 <= a < self.registry@.len() implies spec_unique_kinds(
                (#[trigger] self.registry@[a]).1@,
            ) by {
                if a == i {
                    let comps = self.registry@[i as int].1@;
                    let old_comps = old_registry[i as int].1@;
                    assert(spec_unique_kinds(old_registry[a].1@));
                    assert forall|x: int, y: int| 0 <= x < y < comps.len() implies (
                    #[trigger] comps[x]).0 != (#[trigger] comps[y]).0 by {
                        let ox: int = if x == k as int {
                            old_comps.len() - 1
                        } else {
                            x
                        };
                        let oy: int = if y == k as int {
                            old_comps.len() - 1
                        } else {
                            y
                        };
                        assert(comps[x] == old_comps[ox]);
                        assert(comps[y] == old_comps[oy]);
                        assert(old_comps[ox].0 != old_comps[oy].0);
                    }
                } else {
                    assert(self.registry@[a] == old_registry[a]);
                    assert(spec_unique_kinds(old_registry[a].1@));
                }
            }
        }
    }

    /// The entity's component of the given kind, if any.
    pub fn get_component(&self, entity_id: u32, kind: u64) -> (r: Option<&C>)
        ensures
            match self.spec_find(entity_id) {
                Some(i) => match spec_find_kind_from(self.registry@[i].1@, kind, 0) {
                    Some(k) => r matches Some(c) && *c == self.registry@[i].1@[k].1,
                    None => r is None,
                },
                None => r is None,
            },
    {
        let i = match self.find_entity(entity_id) {
            Some(i) => i,
            None => {
                return None;
            },
        };
        proof {
            lemma_find_entity_from(self.registry@, entity_id, 0);
        }
        match find_kind(&self.registry[i].1, kind) {
            Some(k) => {
                proof {
                    lemma_find_kind_from(self.registry@[i as int].1@, kind, 0);
                }
                Some(&self.registry[i].1[k].1)
            },
            None => None,
        }
    }

    /// Whether the entity holds a component of the given kind.
    pub fn has_component(&self, entity_id: u32, kind: u64) -> (r: bool)
        ensures
            r == match self.spec_find(entity_id) {
                Some(i) => spec_find_kind_from(self.registry@[i].1@, kind, 0) is Some,
                None => false,
            },
    {
        self.get_component(entity_id, kind).is_some()
    }

    /// Replace the entity's component of the given kind, handing the
    /// previous value back.  Mutable access is expressed as replacement,
    /// which keeps each entity's kinds distinct.  Without the entity or
    /// the kind, nothing changes.
    pub fn get_mut_component(&mut self, entity_id: u32, kind: u64, replacement: C) -> (r: Option<
        C,
    >)
        requires
            old(self).wf(),
        ensures
            final(self).wf(),
            final(self).id_counter == old(self).id_counter,
            final(self).registry@.len() == old(self).registry@.len(),
            match old(self).spec_find(entity_id) {
                Some(i) => {
                    match spec_find_kind_from(old(self).registry@[i].1@, kind, 0) {
                        Some(k) => {
                            &&& r == Some(old(self).registry@[i].1@[k].1)
                            &&& (forall|j: int|
                                0 <= j < old(self).registry@.len() && j != i
                                    ==> #[trigger] final(self).registry@[j] == old(
                                    self,
                                ).registry@[j])
                            &&& final(self).registry@[i].0 == entity_id
                            &&& final(self).registry@[i].1@ == old(self).registry@[i].1@.update(
                                k,
                                (kind, replacement),
                            )
                        },
                        None => r is None && *final(self) == *old(self),
                    }
                },
                None => r is None && *final(self) == *old(self),
            },
    {
        let i = match self.find_entity(entity_id) {
            Some(i) => i,
            None => {
                return None;
            },
        };
        proof {
            lemma_find_entity_from(self.registry@, entity_id, 0);
        }
        let k = match find_kind(&self.registry[i].1, kind) {
            Some(k) => k,
            None => {
                return None;
            },
        };
        proof {
            lemma_find_kind_from(self.registry@[i as int].1@, kind, 0);
        }
        let ghost old_registry = self.registry@;
        let entry = &mut self.registry[i];
        entry.1.push((kind, replacement));
        let previous = entry.1.swap_remove(k);
        proof {
            assert(self.registry@[i as int].0 == old_registry[i as int].0);
            assert(self.registry@[i as int].1@ =~= old_registry[i as int].1@.update(
                k as int,
                (kind, replacement),
            ));
            assert forall|a: int|
                0 <= a < self.registry@.len() implies spec_unique_kinds(
                (#[trigger] self.registry@[a]).1@,
            ) by {
                if a == i {
                    let comps = self.registry@[i as int].1@;
                    let old_comps = old_registry[i as int].1@;
                    assert(spec_unique_kinds(old_comps));
                    assert(old_comps[k as int].0 == kind);
                    assert forall|x: int, y: int| 0 <= x < y < comps.len() implies (
                    #[trigger] comps[x]).0 != (#[trigger] comps[y]).0 by {
                        assert(comps[x].0 == old_comps[x].0);
                        assert(comps[y].0 == old_comps[y].0);
                    }
                } else {
                    assert(self.registry@[a] == old_registry[a]);
                    assert(spec_unique_kinds(old_registry[a].1@));
                }
            }
        }
        Some(previous.1)
    }

    /// Every component of the given kind, one per entity at most, in
    /// registry order.
    pub fn get_all_components_of_type(&self, kind: u64) -> (r: Option<Vec<&C>>)
        ensures
            r matches Some(v) && v@.map_values(|c: &C| *c) == spec_components_from(
                self.registry@,
                kind,
                0,
            ),
    {
        let n = self.registry.len();
        let mut result: Vec<&C> = Vec::new();
        let mut i: usize = 0;
        proof {
            assert(result@.map_values(|c: &C| *c) + spec_components_from(self.registry@, kind, 0)
                =~= spec_components_from(self.registry@, kind, 0));
        }
        while i < n
            invariant
                n == self.registry@.len(),
                i <= n,
                spec_components_from(self.registry@, kind, 0) == result@.map_values(|c: &C| *c)
                    + spec_components_from(self.registry@, kind, i as int),
            decreases n - i,
        {
            let ghost previous = result@;
            match find_kind(&self.registry[i].1, kind) {
                Some(k) => {
                    proof {
                        lemma_find_kind_from(self.registry@[i as int].1@, kind, 0);
                    }
                    result.push(&self.registry[i].1[k].1);
                    proof {
                        assert(result@.map_values(|c: &C| *c) =~= previous.map_values(|c: &C| *c)
                            + seq![self.registry@[i as int].1@[k as int].1]);
                    }
                },
                None => {},
            }
            proof {
                assert(result@.map_values(|c: &C| *c) + spec_components_from(
                    self.registry@,
                    kind,
                    i as int + 1,
                ) =~= previous.map_values(|c: &C| *c) + spec_components_from(
                    self.registry@,
                    kind,
                    i as int,
                ));
            }
            i = i + 1;
        }
        proof {
            assert(result@.map_values(|c: &C| *c) + spec_components_from(
                self.registry@,
                kind,
                n as int,
            ) =~= result@.map_values(|c: &C| *c));
        }
        Some(result)
    }

    /// The ids of every entity holding a component of the given kind, in
    /// registry order.
    pub fn get_all_entities_with_component(&self, kind: u64) -> (r: Option<Vec<u32>>)
        ensures
            r matches Some(v) && v@ == spec_entities_from(self.registry@, kind, 0),
    {
        let n = self.registry.len();
        let mut result: Vec<u32> = Vec::new();
        let mut i: usize = 0;
        proof {
            assert(result@ + spec_entities_from(self.registry@, kind, 0) =~= spec_entities_from(
                self.registry@,
                kind,
                0,
            ));
        }
        while i < n
            invariant
                n == self.registry@.len(),
                i <= n,
                spec_entities_from(self.registry@, kind, 0) == result@ + spec_entities_from(
                    self.registry@,
                    kind,
                    i as int,
                ),
            decreases n - i,
        {
            let ghost previous = result@;
            match find_kind(&self.registry[i].1, kind) {
                Some(_) => {
                    result.push(self.registry[i].0);
                },
                None => {},
            }
            proof {
                assert(result@ + spec_entities_from(self.registry@, kind, i as int + 1)
                    =~= previous + spec_entities_from(self.registry@, kind, i as int));
            }
            i = i + 1;
        }
        proof {
            assert(result@ + spec_entities_from(self.registry@, kind, n as int) =~= result@);
        }
        Some(result)
    }
}

impl<C: Component> World<C> {
    /// The entity's component of the given kind, encoded by its own
    /// `encode` for serialization, if present.  What the bytes hold is
    /// the component type's own affair; the store promises only which
    /// component was encoded.
    pub fn serialize_component(&self, entity_id: u32, kind: u64) -> (r: Option<Vec<u8>>)
        ensures
            r is Some == match self.spec_find(entity_id) {
                Some(i) => spec_find_kind_from(self.registry@[i].1@, kind, 0) is Some,
                None => false,
            },
    {
        match self.get_component(entity_id, kind) {
            Some(c) => Some(c.encode()),
            None => None,
        }
    }
}

/// Components of the given kind from entity `i` on, one per entity at
/// most, in registry order.
pub open spec fn spec_components_from<C>(
    registry: Seq<(u32, Vec<(u64, C)>)>,
    kind: u64,
    i: int,
) -> Seq<C>
    decreases registry.len() - i,
{
    if i < 0 || i >= registry.len() {
        Seq::empty()
    } else {
        (match spec_find_kind_from(registry[i].1@, kind, 0) {
            Some(k) => seq![registry[i].1@[k].1],
            None => Seq::empty(),
        }) + spec_components_from(registry, kind, i + 1)
    }
}

/// Ids of entities holding a component of the given kind, from entity
/// `i` on, in registry order.
pub open spec fn spec_entities_from<C>(
    registry: Seq<(u32, Vec<(u64, C)>)>,
    kind: u64,
    i: int,
) -> Seq<u32>
    decreases registry.len() - i,
{
    if i < 0 || i >= registry.len() {
        Seq::empty()
    } else {
        (match spec_find_kind_from(registry[i].1@, kind, 0) {
            Some(k) => seq![registry[i].0],
            None => Seq::empty(),
        }) + spec_entities_from(registry, kind, i + 1)
    }
}

/// First component with the given kind tag in the list.
fn find_kind<C>(components: &Vec<(u64, C)>, kind: u64) -> (r: Option<usize>)
    ensures
        match r {
            Some(k) => spec_find_kind_from(components@, kind, 0) == Some(k as int),
            None => spec_find_kind_from(components@, kind, 0) is None,
        },
{
    let n = components.len();
    let mut k: usize = 0;
    while k < n
        invariant
            n == components@.len(),
            k <= n,
            spec_find_kind_from(components@, kind, 0) == spec_find_kind_from(
                components@,
                kind,
                k as int,
            ),
        decreases n - k,
    {
        if components[k].0 == kind {
            return Some(k);
        }
        k = k + 1;
    }
    None
}

} // verus!
