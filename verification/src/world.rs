use vstd::prelude::*;

use crate::errors::EcsError;
use crate::schema::Descriptor;
use crate::value::{default_cell, default_values, tag_of, values_match, TypeTag, Value, ValueModel};

verus! {

/// A system registration: a query handle plus an opaque callback token the
/// scheduler hands back to the embedding application each tick.
pub struct SystemRec {
    pub query: u64,
    pub callback: u64,
}

/// The world context: the storage and scheduling state one instance of the
/// layer talks to.
///
/// Component ids and entity ids are dense, nonzero 64-bit handles: the
/// component with id `c` is described by `components[c - 1]`, the entity with
/// id `e` by slot `e - 1`. An entity holds at most one instance per component
/// id and at most one parent edge by construction: instances live in one cell
/// per (entity, component) pair and parent edges in one slot per entity.
pub struct World {
    /// Registered layout descriptors; position `c - 1` belongs to id `c`.
    pub components: Vec<Descriptor>,
    /// Alive flag per created entity; position `e - 1` belongs to id `e`.
    pub entities: Vec<bool>,
    /// Per entity, per component id, the attached instance if any.
    pub cells: Vec<Vec<Option<Vec<Value>>>>,
    /// Per entity, the parent edge if any.
    pub parents: Vec<Option<u64>>,
    /// Per component id, the world-scoped instance if any.
    pub singletons: Vec<Option<Vec<Value>>>,
    /// Presence filters; the query with handle `q` is `queries[q - 1]`.
    pub queries: Vec<Vec<u64>>,
    /// Registered systems, in registration order.
    pub systems: Vec<SystemRec>,
    /// Entity slots the world is willing to allocate.
    pub max_entities: usize,
    /// Whether an iteration window is open; registration and entity creation
    /// are refused while it is.
    pub iterating: bool,
}

impl World {
    /// Number of registered components.
    pub open spec fn comp_count(self) -> int {
        self.components@.len() as int
    }

    /// Whether `c` is a registered component id.
    pub open spec fn is_comp(self, c: u64) -> bool {
        1 <= c && c as int <= self.comp_count()
    }

    /// The descriptor registered under id `c`.
    pub open spec fn desc_of(self, c: u64) -> Descriptor {
        self.components@[c as int - 1]
    }

    /// The field-tag list registered under id `c`.
    pub open spec fn tags_of(self, c: u64) -> Seq<TypeTag> {
        self.desc_of(c).field_tags@
    }

    /// Whether some registered component carries this name.
    pub open spec fn has_comp_named(self, n: Seq<char>) -> bool {
        exists|i: int| 0 <= i < self.comp_count() && (#[trigger] self.components@[i]).name@ == n
    }

    /// Number of entity ids handed out so far (alive or destroyed).
    pub open spec fn ent_count(self) -> int {
        self.entities@.len() as int
    }

    /// Whether `e` was ever handed out.
    pub open spec fn is_entity(self, e: u64) -> bool {
        1 <= e && e as int <= self.ent_count()
    }

    /// Whether `e` is alive.
    pub open spec fn alive(self, e: u64) -> bool {
        self.is_entity(e) && self.entities@[e as int - 1]
    }

    /// The attachment row of entity `e`.
    pub open spec fn row(self, e: u64) -> Seq<Option<Vec<Value>>> {
        self.cells@[e as int - 1]@
    }

    /// Whether component `c` is attached to entity `e`.
    pub open spec fn attached(self, e: u64, c: u64) -> bool {
        &&& self.alive(e)
        &&& self.is_comp(c)
        &&& c as int - 1 < self.row(e).len()
        &&& self.row(e)[c as int - 1] is Some
    }

    /// The field values of the instance of `c` attached to `e`.
    pub open spec fn cell(self, e: u64, c: u64) -> Seq<ValueModel> {
        self.row(e)[c as int - 1]->0.deep_view()
    }

    /// The parent edge of entity `e`, if one is set.
    pub open spec fn parent_of(self, e: u64) -> Option<u64> {
        if self.is_entity(e) {
            self.parents@[e as int - 1]
        } else {
            None
        }
    }

    /// The field values of the singleton instance of `c`, if one exists.
    pub open spec fn singleton_cell(self, c: u64) -> Option<Seq<ValueModel>> {
        if self.is_comp(c) && self.singletons@[c as int - 1] is Some {
            Some(self.singletons@[c as int - 1]->0.deep_view())
        } else {
            None
        }
    }

    /// One attachment cell conforms to the schema of its component.
    pub open spec fn cell_ok(self, e: int, c: int) -> bool {
        self.cells@[e]@[c] matches Some(vals) ==> values_match(
            vals.deep_view(),
            self.components@[c].field_tags@,
        )
    }

    /// One singleton slot conforms to the schema of its component.
    pub open spec fn singleton_ok(self, c: int) -> bool {
        self.singletons@[c] matches Some(vals) ==> values_match(
            vals.deep_view(),
            self.components@[c].field_tags@,
        )
    }

    /// Every id a query filters on is a registered component id.
    pub open spec fn query_ok(self, q: int) -> bool {
        forall|i: int|
            0 <= i < self.queries@[q]@.len() ==> 1 <= (#[trigger] self.queries@[q]@[i])
                && self.queries@[q]@[i] as int <= self.comp_count()
    }

    /// A destroyed entity keeps no attachments and no parent edge.
    pub open spec fn dead_clean(self, e: int) -> bool {
        !self.entities@[e] ==> self.cells@[e]@.len() == 0 && self.parents@[e] is None
    }

    /// Well-formedness: slot counts run in step with the id spaces, names are
    /// unique, every stored instance conforms to its declared layout, and
    /// every recorded handle is in range.
    pub open spec fn wf(self) -> bool {
        &&& self.cells@.len() == self.entities@.len()
        &&& self.parents@.len() == self.entities@.len()
        &&& self.singletons@.len() == self.components@.len()
        &&& forall|c: int| 0 <= c < self.comp_count() ==> (#[trigger] self.components@[c]).wf()
        &&& forall|i: int, j: int|
            0 <= i < j < self.comp_count() ==> (#[trigger] self.components@[i]).name@ != (
            #[trigger] self.components@[j]).name@
        &&& forall|e: int|
            0 <= e < self.cells@.len() ==> (#[trigger] self.cells@[e])@.len() <= self.comp_count()
        &&& forall|e: int, c: int|
            0 <= e < self.cells@.len() && 0 <= c < self.cells@[e]@.len() ==> #[trigger] self.cell_ok(
                e,
                c,
            )
        &&& forall|c: int| 0 <= c < self.singletons@.len() ==> #[trigger] self.singleton_ok(c)
        &&& forall|q: int| 0 <= q < self.queries@.len() ==> #[trigger] self.query_ok(q)
        &&& forall|s: int|
            0 <= s < self.systems@.len() ==> 1 <= (#[trigger] self.systems@[s]).query
                && self.systems@[s].query as int <= self.queries@.len()
        &&& forall|e: int| 0 <= e < self.entities@.len() ==> #[trigger] self.dead_clean(e)
        &&& forall|e: int|
            0 <= e < self.parents@.len() ==> ((#[trigger] self.parents@[e]) matches Some(p) ==> 1
                <= p && p as int <= self.ent_count())
    }

    /// Everything but the attachment cells is unchanged.
    pub open spec fn only_cells_changed(pre: World, post: World) -> bool {
        &&& post.components == pre.components
        &&& post.entities == pre.entities
        &&& post.parents == pre.parents
        &&& post.singletons == pre.singletons
        &&& post.queries == pre.queries
        &&& post.systems == pre.systems
        &&& post.max_entities == pre.max_entities
        &&& post.iterating == pre.iterating
    }

    /// Everything but the parent edges is unchanged.
    pub open spec fn only_parents_changed(pre: World, post: World) -> bool {
        &&& post.components == pre.components
        &&& post.entities == pre.entities
        &&& post.cells == pre.cells
        &&& post.singletons == pre.singletons
        &&& post.queries == pre.queries
        &&& post.systems == pre.systems
        &&& post.max_entities == pre.max_entities
        &&& post.iterating == pre.iterating
    }

    /// Everything but the singleton slots is unchanged.
    pub open spec fn only_singletons_changed(pre: World, post: World) -> bool {
        &&& post.components == pre.components
        &&& post.entities == pre.entities
        &&& post.cells == pre.cells
        &&& post.parents == pre.parents
        &&& post.queries == pre.queries
        &&& post.systems == pre.systems
        &&& post.max_entities == pre.max_entities
        &&& post.iterating == pre.iterating
    }

    /// Creates an empty world that will allocate at most `max_entities`
    /// entity slots.
    pub fn new(max_entities: usize) -> (w: World)
        ensures
            w.wf(),
            w.comp_count() == 0,
            w.ent_count() == 0,
            w.queries@.len() == 0,
            w.systems@.len() == 0,
            !w.iterating,
            w.max_entities == max_entities,
    {
        World {
            components: Vec::new(),
            entities: Vec::new(),
            cells: Vec::new(),
            parents: Vec::new(),
            singletons: Vec::new(),
            queries: Vec::new(),
            systems: Vec::new(),
            max_entities,
            iterating: false,
        }
    }

    /// Looks up a registered component id by name.
    pub fn find_component(&self, name: &String) -> (r: Option<u64>)
        requires
            self.wf(),
        ensures
            r is Some <==> self.has_comp_named(name@),
            r matches Some(c) ==> self.is_comp(c) && self.desc_of(c).name@ == name@,
    {
        let mut i: usize = 0;
        while i < self.components.len()
            invariant
                i <= self.comp_count(),
                forall|k: int| 0 <= k < i ==> (#[trigger] self.components@[k]).name@ != name@,
            decreases self.comp_count() - i,
        {
            if self.components[i].name == *name {
                return Some((i as u64) + 1);
            }
            i = i + 1;
        }
        None
    }

    /// The name registered under component id `c`, for diagnostics.
    pub fn component_name(&self, c: u64) -> (r: Option<&String>)
        requires
            self.wf(),
        ensures
            r is Some <==> self.is_comp(c),
            r matches Some(n) ==> n@ == self.desc_of(c).name@,
    {
        if c >= 1 && c - 1 < self.components.len() as u64 {
            Some(&self.components[self.cix(c)].name)
        } else {
            None
        }
    }

    /// Success condition of `register_component`: no iteration window is
    /// open, a component slot is free, and the name is not yet stored.
    pub open spec fn register_ok(self, desc: Descriptor) -> bool {
        &&& !self.iterating
        &&& self.comp_count() < usize::MAX as int
        &&& !self.has_comp_named(desc.name@)
    }

    /// Stores a layout descriptor and hands out the next component id.
    ///
    /// Refused with `BoundaryMismatch` while an iteration window is open,
    /// with `ResourceExhausted` when no component slot is free, and with
    /// `RegistrationFailure` (carrying the name) when the name is already
    /// stored; succeeds exactly otherwise.
    pub fn register_component(&mut self, desc: Descriptor) -> (r: Result<u64, EcsError>)
        requires
            old(self).wf(),
            desc.wf(),
        ensures
            final(self).wf(),
            r is Ok <==> old(self).register_ok(desc),
            r matches Ok(id) ==> {
                &&& id as int == old(self).comp_count() + 1
                &&& final(self).is_comp(id)
                &&& final(self).components@ == old(self).components@.push(desc)
                &&& final(self).singletons@ == old(self).singletons@.push(None::<Vec<Value>>)
                &&& final(self).entities == old(self).entities
                &&& final(self).cells == old(self).cells
                &&& final(self).parents == old(self).parents
                &&& final(self).queries == old(self).queries
                &&& final(self).systems == old(self).systems
                &&& final(self).max_entities == old(self).max_entities
                &&& final(self).iterating == old(self).iterating
            },
            r is Err ==> *final(self) == *old(self),
            r matches Err(e) ==> (if old(self).iterating {
                e is BoundaryMismatch
            } else if old(self).comp_count() >= usize::MAX as int {
                e is ResourceExhausted
            } else {
                e matches EcsError::RegistrationFailure(n) && n@ == desc.name@
            }),
    {
        if self.iterating {
            return Err(EcsError::BoundaryMismatch);
        }
        if self.components.len() == usize::MAX {
            return Err(EcsError::ResourceExhausted);
        }
        if self.find_component(&desc.name).is_some() {
            return Err(EcsError::RegistrationFailure(desc.name.clone()));
        }
        let id = (self.components.len() as u64) + 1;
        let ghost name = desc.name@;
        self.components.push(desc);
        self.singletons.push(None);
        proof {
            assert forall|i: int, j: int| 0 <= i < j < self.comp_count() implies (
            #[trigger] self.components@[i]).name@ != (#[trigger] self.components@[j]).name@ by {
                if j < old(self).comp_count() {
                    assert(old(self).components@[i].name@ != old(self).components@[j].name@);
                } else {
                    assert(self.components@[j].name@ == name);
                    assert(old(self).components@[i].name@ != name);
                }
            }
            assert forall|e: int, c: int|
                0 <= e < self.cells@.len() && 0 <= c
                    < self.cells@[e]@.len() implies #[trigger] self.cell_ok(e, c) by {
                assert(old(self).cell_ok(e, c));
                assert(self.components@[c] == old(self).components@[c]);
            }
            assert forall|c: int| 0 <= c < self.singletons@.len() implies #[trigger] self
                .singleton_ok(c) by {
                if c < old(self).singletons@.len() {
                    assert(old(self).singleton_ok(c));
                    assert(self.components@[c] == old(self).components@[c]);
                }
            }
            assert forall|q: int| 0 <= q < self.queries@.len() implies #[trigger] self.query_ok(
                q,
            ) by {
                assert(old(self).query_ok(q));
            }
            assert forall|e: int| 0 <= e < self.entities@.len() implies #[trigger] self.dead_clean(
                e,
            ) by {
                assert(old(self).dead_clean(e));
            }
        }
        Ok(id)
    }

    /// Success condition of `entity_new`: no iteration window is open and an
    /// entity slot is free.
    pub open spec fn entity_new_ok(self) -> bool {
        &&& !self.iterating
        &&& self.ent_count() < self.max_entities as int
    }

    /// Allocates a fresh entity id.
    ///
    /// Refused with `BoundaryMismatch` while an iteration window is open and
    /// with `ResourceExhausted` when no entity slot is free; succeeds exactly
    /// otherwise.
    pub fn entity_new(&mut self) -> (r: Result<u64, EcsError>)
        requires
            old(self).wf(),
        ensures
            final(self).wf(),
            r is Ok <==> old(self).entity_new_ok(),
            r matches Ok(e) ==> {
                &&& e as int == old(self).ent_count() + 1
                &&& final(self).alive(e)
                &&& final(self).parent_of(e) is None
                &&& forall|c: u64| !final(self).attached(e, c)
                &&& final(self).entities@ == old(self).entities@.push(true)
                &&& final(self).parents@ == old(self).parents@.push(None::<u64>)
                &&& final(self).cells@.len() == old(self).cells@.len() + 1
                &&& final(self).row(e).len() == 0
                &&& forall|k: int|
                    0 <= k < old(self).cells@.len() ==> final(self).cells@[k] == old(self).cells@[k]
                &&& final(self).components == old(self).components
                &&& final(self).singletons == old(self).singletons
                &&& final(self).queries == old(self).queries
                &&& final(self).systems == old(self).systems
                &&& final(self).max_entities == old(self).max_entities
                &&& final(self).iterating == old(self).iterating
            },
            r is Err ==> *final(self) == *old(self),
            r matches Err(e) ==> (if old(self).iterating {
                e is BoundaryMismatch
            } else {
                e is ResourceExhausted
            }),
    {
        if self.iterating {
            return Err(EcsError::BoundaryMismatch);
        }
        if self.entities.len() >= self.max_entities {
            return Err(EcsError::ResourceExhausted);
        }
        let id = (self.entities.len() as u64) + 1;
        self.entities.push(true);
        self.cells.push(Vec::new());
        self.parents.push(None);
        proof {
            assert forall|e: int, c: int|
                0 <= e < self.cells@.len() && 0 <= c
                    < self.cells@[e]@.len() implies #[trigger] self.cell_ok(e, c) by {
                if e < old(self).cells@.len() {
                    assert(old(self).cell_ok(e, c));
                }
            }
            assert forall|e: int| 0 <= e < self.entities@.len() implies #[trigger] self.dead_clean(
                e,
            ) by {
                if e < old(self).entities@.len() {
                    assert(old(self).dead_clean(e));
                }
            }
            assert forall|q: int| 0 <= q < self.queries@.len() implies #[trigger] self.query_ok(
                q,
            ) by {
                assert(old(self).query_ok(q));
            }
            assert forall|i: int, j: int| 0 <= i < j < self.comp_count() implies (
            #[trigger] self.components@[i]).name@ != (#[trigger] self.components@[j]).name@ by {
                assert(old(self).components@[i].name@ != old(self).components@[j].name@);
            }
            assert forall|c: int| 0 <= c < self.singletons@.len() implies #[trigger] self
                .singleton_ok(c) by {
                assert(old(self).singleton_ok(c));
            }
            assert(forall|c: u64| !self.attached(id, c));
        }
        Ok(id)
    }

    /// The storage slot of a created entity id.
    fn eix(&self, e: u64) -> (i: usize)
        requires
            self.is_entity(e),
        ensures
            i as int == e as int - 1,
    {
        let n = self.entities.len();
        proof {
            assert(e as int - 1 < n as int);
        }
        (e - 1) as usize
    }

    /// The storage slot of a registered component id.
    fn cix(&self, c: u64) -> (i: usize)
        requires
            self.is_comp(c),
        ensures
            i as int == c as int - 1,
    {
        let n = self.components.len();
        proof {
            assert(c as int - 1 < n as int);
        }
        (c - 1) as usize
    }

    /// Returns whether entity `e` is alive.
    pub fn entity_alive(&self, e: u64) -> (r: bool)
        ensures
            r == self.alive(e),
    {
        if e >= 1 && e - 1 < self.entities.len() as u64 {
            self.entities[self.eix(e)]
        } else {
            false
        }
    }

    /// Returns whether component id `c` is registered.
    pub fn comp_registered(&self, c: u64) -> (r: bool)
        ensures
            r == self.is_comp(c),
    {
        c >= 1 && c - 1 < self.components.len() as u64
    }

    /// Returns whether component `c` is attached to entity `e`.
    pub fn is_attached(&self, e: u64, c: u64) -> (r: bool)
        requires
            self.wf(),
        ensures
            r == self.attached(e, c),
    {
        if !self.entity_alive(e) {
            return false;
        }
        if !self.comp_registered(c) {
            return false;
        }
        let ei = self.eix(e);
        let ci = self.cix(c);
        ci < self.cells[ei].len() && self.cells[ei][ci].is_some()
    }

    /// Well-formedness does not depend on the iteration flag or the entity
    /// budget.
    proof fn lemma_wf_storage(a: World, b: World)
        requires
            a.wf(),
            b.components == a.components,
            b.entities == a.entities,
            b.cells == a.cells,
            b.parents == a.parents,
            b.singletons == a.singletons,
            b.queries == a.queries,
            b.systems == a.systems,
        ensures
            b.wf(),
    {
        assert forall|e: int, c: int|
            0 <= e < b.cells@.len() && 0 <= c < b.cells@[e]@.len() implies #[trigger] b.cell_ok(
            e,
            c,
        ) by {
            assert(a.cell_ok(e, c));
        }
        assert forall|c: int| 0 <= c < b.singletons@.len() implies #[trigger] b.singleton_ok(c) by {
            assert(a.singleton_ok(c));
        }
        assert forall|q: int| 0 <= q < b.queries@.len() implies #[trigger] b.query_ok(q) by {
            assert(a.query_ok(q));
        }
        assert forall|e: int| 0 <= e < b.entities@.len() implies #[trigger] b.dead_clean(e) by {
            assert(a.dead_clean(e));
        }
    }

    /// Opens the iteration window: until `end_iteration`, schema registration
    /// and entity creation are refused.
    pub fn begin_iteration(&mut self)
        requires
            old(self).wf(),
        ensures
            final(self).wf(),
            *final(self) == (World { iterating: true, ..*old(self) }),
    {
        self.iterating = true;
        proof {
            World::lemma_wf_storage(*old(self), *self);
        }
    }

    /// Closes the iteration window.
    pub fn end_iteration(&mut self)
        requires
            old(self).wf(),
        ensures
            final(self).wf(),
            *final(self) == (World { iterating: false, ..*old(self) }),
    {
        self.iterating = false;
        proof {
            World::lemma_wf_storage(*old(self), *self);
        }
    }

    /// Returns the accessor onto the instance of `c` attached to `e`: the
    /// field values in declaration order, or `None` when nothing is attached
    /// — a recoverable condition the caller decides about.
    pub fn entity_get(&self, e: u64, c: u64) -> (r: Option<&Vec<Value>>)
        requires
            self.wf(),
        ensures
            r is Some <==> self.attached(e, c),
            r matches Some(vals) ==> vals.deep_view() == self.cell(e, c),
    {
        if !self.entity_alive(e) {
            return None;
        }
        if !self.comp_registered(c) {
            return None;
        }
        let ei = self.eix(e);
        let ci = self.cix(c);
        if ci < self.cells[ei].len() {
            match &self.cells[ei][ci] {
                Some(vals) => Some(vals),
                None => None,
            }
        } else {
            None
        }
    }

    /// The parent edge of entity `e`, if one is set.
    pub fn entity_parent(&self, e: u64) -> (r: Option<u64>)
        requires
            self.wf(),
        ensures
            r == self.parent_of(e),
    {
        if e >= 1 && e - 1 < self.entities.len() as u64 {
            self.parents[self.eix(e)]
        } else {
            None
        }
    }

    /// Success condition of `entity_add` and `entity_remove`: the handles are
    /// valid.
    pub open spec fn add_ok(self, e: u64, c: u64) -> bool {
        self.alive(e) && self.is_comp(c)
    }

    /// Attaches component `c` to entity `e`, zero-initialized per its schema.
    ///
    /// Re-adding an already-attached component is a no-op, never a
    /// duplication. Refused with `BoundaryMismatch` exactly when `e` is not
    /// alive or `c` is not registered.
    pub fn entity_add(&mut self, e: u64, c: u64) -> (r: Result<(), EcsError>)
        requires
            old(self).wf(),
        ensures
            final(self).wf(),
            r is Ok <==> old(self).add_ok(e, c),
            r matches Err(err) ==> *final(self) == *old(self) && err is BoundaryMismatch,
            r is Ok && old(self).attached(e, c) ==> *final(self) == *old(self),
            r is Ok && !old(self).attached(e, c) ==> {
                &&& World::only_cells_changed(*old(self), *final(self))
                &&& final(self).attached(e, c)
                &&& final(self).cell(e, c) == default_cell(old(self).tags_of(c))
                &&& forall|e2: u64, c2: u64|
                    !(e2 == e && c2 == c) ==> #[trigger] final(self).attached(e2, c2) == old(self).attached(e2, c2)
                &&& forall|e2: u64, c2: u64|
                    old(self).attached(e2, c2) && !(e2 == e && c2 == c) ==> #[trigger] final(self).cell(e2, c2) == old(self).cell(e2, c2)
                &&& forall|e2: u64| #[trigger] final(self).alive(e2) == old(self).alive(e2)
                &&& forall|e2: u64|
                    #[trigger] final(self).parent_of(e2) == old(self).parent_of(e2)
            },
    {
        if !self.entity_alive(e) || !self.comp_registered(c) {
            return Err(EcsError::BoundaryMismatch);
        }
        if self.is_attached(e, c) {
            return Ok(());
        }
        let ei = self.eix(e);
        let ci = self.cix(c);
        let vals = default_values(&self.components[ci].field_tags);
        proof {
            crate::value::lemma_default_cell_matches(self.components@[ci as int].field_tags@);
        }
        let ghost orow = self.cells@[ei as int]@;
        while self.cells[ei].len() <= ci
            invariant
                0 <= ei < self.cells@.len(),
                ci as int == c as int - 1,
                ci < old(self).comp_count(),
                self.components == old(self).components,
                self.entities == old(self).entities,
                self.parents == old(self).parents,
                self.singletons == old(self).singletons,
                self.queries == old(self).queries,
                self.systems == old(self).systems,
                self.max_entities == old(self).max_entities,
                self.iterating == old(self).iterating,
                self.cells@.len() == old(self).cells@.len(),
                forall|k: int|
                    0 <= k < self.cells@.len() && k != ei ==> #[trigger] self.cells@[k] == old(self).cells@[k],
                orow == old(self).cells@[ei as int]@,
                self.cells@[ei as int]@.len() >= orow.len(),
                forall|j: int|
                    0 <= j < orow.len() ==> #[trigger] self.cells@[ei as int]@[j] == orow[j],
                forall|j: int|
                    orow.len() <= j < self.cells@[ei as int]@.len() ==> #[trigger] self.cells@[ei as int]@[j] is None,
                self.cells@[ei as int]@.len() <= ci + 1 || self.cells@[ei as int]@.len()
                    == orow.len(),
            decreases ci + 1 - self.cells@[ei as int]@.len(),
        {
            let row = &mut self.cells[ei];
            row.push(None);
        }
        let row = &mut self.cells[ei];
        row[ci] = Some(vals);
        proof {
            let pre = *old(self);
            let post = *self;
            assert(post.cells@[ei as int]@[ci as int] == Some(vals));
            assert(post.cell(e, c) == vals.deep_view());
            assert forall|k: int|
                0 <= k < post.cells@.len() && k != ei ==> #[trigger] post.cells@[k]
                    == pre.cells@[k] by {}
            assert forall|ee: int, cc: int|
                0 <= ee < post.cells@.len() && 0 <= cc
                    < post.cells@[ee]@.len() implies #[trigger] post.cell_ok(ee, cc) by {
                if ee != ei {
                    assert(pre.cell_ok(ee, cc));
                } else if cc == ci {
                    assert(post.cells@[ee]@[cc] == Some(vals));
                } else if cc < orow.len() {
                    assert(post.cells@[ee]@[cc] == orow[cc]);
                    assert(pre.cell_ok(ee, cc));
                } else {
                    assert(post.cells@[ee]@[cc] is None);
                }
            }
            assert forall|q: int| 0 <= q < post.queries@.len() implies #[trigger] post.query_ok(
                q,
            ) by {
                assert(pre.query_ok(q));
            }
            assert forall|cc: int| 0 <= cc < post.singletons@.len() implies #[trigger] post
                .singleton_ok(cc) by {
                assert(pre.singleton_ok(cc));
            }
            assert forall|ee: int| 0 <= ee < post.entities@.len() implies #[trigger] post
                .dead_clean(ee) by {
                assert(pre.dead_clean(ee));
                if ee == ei {
                    assert(pre.entities@[ee]);
                }
            }
            assert forall|e2: u64, c2: u64| !(e2 == e && c2 == c) implies #[trigger] post.attached(
                e2,
                c2,
            ) == pre.attached(e2, c2) by {
                if e2 == e && post.is_comp(c2) && c2 != c {
                    if c2 as int - 1 < orow.len() {
                        assert(post.row(e2)[c2 as int - 1] == orow[c2 as int - 1]);
                    }
                }
            }
            assert forall|e2: u64, c2: u64|
                pre.attached(e2, c2) && !(e2 == e && c2 == c) implies #[trigger] post.cell(e2, c2)
                == pre.cell(e2, c2) by {
                if e2 == e {
                    assert(post.row(e2)[c2 as int - 1] == orow[c2 as int - 1]);
                }
            }
        }
        Ok(())
    }

    /// Success condition of `entity_set`: the instance is attached and the
    /// field index and value kind match the declared layout.
    pub open spec fn set_ok(self, e: u64, c: u64, field: int, v: ValueModel) -> bool {
        &&& self.attached(e, c)
        &&& 0 <= field < self.tags_of(c).len()
        &&& tag_of(v) == self.tags_of(c)[field]
    }

    /// Writes one field of the instance of `c` attached to `e`.
    ///
    /// Refused with `NotAttached` when no instance is attached, and with
    /// `BoundaryMismatch` when the field index is out of range or the value
    /// kind does not match the declared layout — writes can never land
    /// outside the instance or change a field's kind.
    pub fn entity_set(&mut self, e: u64, c: u64, field: usize, v: Value) -> (r: Result<
        (),
        EcsError,
    >)
        requires
            old(self).wf(),
        ensures
            final(self).wf(),
            r is Ok <==> old(self).set_ok(e, c, field as int, v@),
            r matches Err(err) ==> *final(self) == *old(self) && (if !old(self).attached(e, c) {
                err is NotAttached
            } else {
                err is BoundaryMismatch
            }),
            r is Ok ==> {
                &&& World::only_cells_changed(*old(self), *final(self))
                &&& final(self).attached(e, c)
                &&& final(self).cell(e, c) == old(self).cell(e, c).update(field as int, v@)
                &&& forall|e2: u64, c2: u64|
                    #[trigger] final(self).attached(e2, c2) == old(self).attached(e2, c2)
                &&& forall|e2: u64, c2: u64|
                    old(self).attached(e2, c2) && !(e2 == e && c2 == c) ==> #[trigger] final(self).cell(e2, c2) == old(self).cell(e2, c2)
                &&& forall|e2: u64| #[trigger] final(self).alive(e2) == old(self).alive(e2)
                &&& forall|e2: u64|
                    #[trigger] final(self).parent_of(e2) == old(self).parent_of(e2)
            },
    {
        if !self.is_attached(e, c) {
            return Err(EcsError::NotAttached);
        }
        let ei = self.eix(e);
        let ci = self.cix(c);
        if field >= self.components[ci].field_tags.len() {
            return Err(EcsError::BoundaryMismatch);
        }
        let expected = self.components[ci].field_tags[field];
        if v.tag() != expected {
            return Err(EcsError::BoundaryMismatch);
        }
        let ghost pre = *self;
        let ghost vm = v@;
        let row = &mut self.cells[ei];
        match &mut row[ci] {
            Some(vals) => {
                proof {
                    assert(pre.cell_ok(ei as int, ci as int));
                    assert(vals.deep_view().len() == pre.tags_of(c).len());
                }
                vals[field] = v;
                proof {
                    assert forall|k: int| 0 <= k < vals.deep_view().len() implies (
                    #[trigger] vals.deep_view()[k]) == pre.cell(e, c).update(field as int, vm)[k] by {
                        assert(vals.deep_view()[k] == vals@[k].deep_view());
                    }
                    assert(vals.deep_view() =~= pre.cell(e, c).update(field as int, vm));
                    assert(values_match(vals.deep_view(), pre.tags_of(c)));
                }
            },
            None => {
                proof {
                    assert(false);
                }
            },
        }
        proof {
            let post = *self;
            assert(post.cells@[ei as int]@[ci as int] is Some);
            assert(post.cell(e, c) == pre.cell(e, c).update(field as int, vm));
            assert forall|ee: int, cc: int|
                0 <= ee < post.cells@.len() && 0 <= cc
                    < post.cells@[ee]@.len() implies #[trigger] post.cell_ok(ee, cc) by {
                if ee != ei || cc != ci {
                    assert(post.cells@[ee]@[cc] == pre.cells@[ee]@[cc]);
                    assert(pre.cell_ok(ee, cc));
                }
            }
            assert forall|q: int| 0 <= q < post.queries@.len() implies #[trigger] post.query_ok(
                q,
            ) by {
                assert(pre.query_ok(q));
            }
            assert forall|cc: int| 0 <= cc < post.singletons@.len() implies #[trigger] post
                .singleton_ok(cc) by {
                assert(pre.singleton_ok(cc));
            }
            assert forall|ee: int| 0 <= ee < post.entities@.len() implies #[trigger] post
                .dead_clean(ee) by {
                assert(pre.dead_clean(ee));
                if ee == ei {
                    assert(pre.entities@[ee]);
                }
            }
            assert forall|e2: u64, c2: u64| #[trigger]
                post.attached(e2, c2) == pre.attached(e2, c2) by {
                if e2 == e && post.is_comp(c2) {
                    assert(post.row(e2).len() == pre.row(e2).len());
                    if c2 != c && c2 as int - 1 < pre.row(e2).len() {
                        assert(post.row(e2)[c2 as int - 1] == pre.row(e2)[c2 as int - 1]);
                    }
                }
            }
            assert forall|e2: u64, c2: u64|
                pre.attached(e2, c2) && !(e2 == e && c2 == c) implies #[trigger] post.cell(e2, c2)
                == pre.cell(e2, c2) by {
                if e2 == e {
                    assert(post.row(e2)[c2 as int - 1] == pre.row(e2)[c2 as int - 1]);
                }
            }
        }
        Ok(())
    }

    /// Detaches component `c` from entity `e`; detaching an absent component
    /// is a no-op. Refused with `BoundaryMismatch` exactly when the handles
    /// are invalid.
    pub fn entity_remove(&mut self, e: u64, c: u64) -> (r: Result<(), EcsError>)
        requires
            old(self).wf(),
        ensures
            final(self).wf(),
            r is Ok <==> old(self).add_ok(e, c),
            r matches Err(err) ==> *final(self) == *old(self) && err is BoundaryMismatch,
            r is Ok ==> {
                &&& World::only_cells_changed(*old(self), *final(self))
                &&& !final(self).attached(e, c)
                &&& forall|e2: u64, c2: u64|
                    !(e2 == e && c2 == c) ==> #[trigger] final(self).attached(e2, c2) == old(self).attached(e2, c2)
                &&& forall|e2: u64, c2: u64|
                    old(self).attached(e2, c2) && !(e2 == e && c2 == c) ==> #[trigger] final(self).cell(e2, c2) == old(self).cell(e2, c2)
                &&& forall|e2: u64| #[trigger] final(self).alive(e2) == old(self).alive(e2)
                &&& forall|e2: u64|
                    #[trigger] final(self).parent_of(e2) == old(self).parent_of(e2)
            },
    {
        if !self.entity_alive(e) || !self.comp_registered(c) {
            return Err(EcsError::BoundaryMismatch);
        }
        let ei = self.eix(e);
        let ci = self.cix(c);
        let ghost pre = *self;
        if ci < self.cells[ei].len() {
            let row = &mut self.cells[ei];
            row[ci] = None;
            proof {
                let post = *self;
                assert forall|ee: int, cc: int|
                    0 <= ee < post.cells@.len() && 0 <= cc
                        < post.cells@[ee]@.len() implies #[trigger] post.cell_ok(ee, cc) by {
                    if ee != ei || cc != ci {
                        assert(post.cells@[ee]@[cc] == pre.cells@[ee]@[cc]);
                        assert(pre.cell_ok(ee, cc));
                    }
                }
                assert forall|q: int| 0 <= q < post.queries@.len() implies #[trigger] post
                    .query_ok(q) by {
                    assert(pre.query_ok(q));
                }
                assert forall|cc: int| 0 <= cc < post.singletons@.len() implies #[trigger] post
                    .singleton_ok(cc) by {
                    assert(pre.singleton_ok(cc));
                }
                assert forall|ee: int| 0 <= ee < post.entities@.len() implies #[trigger] post
                    .dead_clean(ee) by {
                    assert(pre.dead_clean(ee));
                    if ee == ei {
                        assert(pre.entities@[ee]);
                    }
                }
                assert forall|e2: u64, c2: u64|
                    !(e2 == e && c2 == c) implies #[trigger] post.attached(e2, c2) == pre.attached(
                    e2,
                    c2,
                ) by {
                    if e2 == e && post.is_comp(c2) && c2 != c && c2 as int - 1 < pre.row(
                        e2,
                    ).len() {
                        assert(post.row(e2)[c2 as int - 1] == pre.row(e2)[c2 as int - 1]);
                    }
                }
                assert forall|e2: u64, c2: u64|
                    pre.attached(e2, c2) && !(e2 == e && c2 == c) implies #[trigger] post.cell(
                    e2,
                    c2,
                ) == pre.cell(e2, c2) by {
                    if e2 == e {
                        assert(post.row(e2)[c2 as int - 1] == pre.row(e2)[c2 as int - 1]);
                    }
                }
            }
        }
        Ok(())
    }

    /// Success condition of `entity_child_of`: both handles are alive.
    pub open spec fn child_of_ok(self, child: u64, parent: u64) -> bool {
        self.alive(child) && self.alive(parent)
    }

    /// Establishes — or overwrites — the single parent edge of `child` so
    /// that it points at `parent` (last write wins). Refused with
    /// `BoundaryMismatch` exactly when either entity is not alive.
    pub fn entity_child_of(&mut self, child: u64, parent: u64) -> (r: Result<(), EcsError>)
        requires
            old(self).wf(),
        ensures
            final(self).wf(),
            r is Ok <==> old(self).child_of_ok(child, parent),
            r matches Err(err) ==> *final(self) == *old(self) && err is BoundaryMismatch,
            r is Ok ==> {
                &&& World::only_parents_changed(*old(self), *final(self))
                &&& final(self).parents@ == old(self).parents@.update(
                    child as int - 1,
                    Some(parent),
                )
                &&& final(self).parent_of(child) == Some(parent)
                &&& forall|e2: u64|
                    e2 != child ==> #[trigger] final(self).parent_of(e2) == old(self).parent_of(e2)
                &&& forall|e2: u64, c2: u64|
                    #[trigger] final(self).attached(e2, c2) == old(self).attached(e2, c2)
                &&& forall|e2: u64, c2: u64|
                    old(self).attached(e2, c2) ==> #[trigger] final(self).cell(e2, c2) == old(
                        self,
                    ).cell(e2, c2)
                &&& forall|e2: u64| #[trigger] final(self).alive(e2) == old(self).alive(e2)
            },
    {
        if !self.entity_alive(child) || !self.entity_alive(parent) {
            return Err(EcsError::BoundaryMismatch);
        }
        let ei = self.eix(child);
        let ghost pre = *self;
        self.parents[ei] = Some(parent);
        proof {
            let post = *self;
            assert forall|ee: int, cc: int|
                0 <= ee < post.cells@.len() && 0 <= cc
                    < post.cells@[ee]@.len() implies #[trigger] post.cell_ok(ee, cc) by {
                assert(pre.cell_ok(ee, cc));
            }
            assert forall|q: int| 0 <= q < post.queries@.len() implies #[trigger] post.query_ok(
                q,
            ) by {
                assert(pre.query_ok(q));
            }
            assert forall|cc: int| 0 <= cc < post.singletons@.len() implies #[trigger] post
                .singleton_ok(cc) by {
                assert(pre.singleton_ok(cc));
            }
            assert forall|ee: int| 0 <= ee < post.entities@.len() implies #[trigger] post
                .dead_clean(ee) by {
                assert(pre.dead_clean(ee));
                if ee == ei {
                    assert(pre.entities@[ee]);
                }
            }
        }
        Ok(())
    }

    /// Destroys entity `e`: its attachments and its own parent edge are
    /// detached. Edges in which `e` is the parent are deliberately left in
    /// place and the children stay alive — scene-tree cleanup is explicit,
    /// never a silent deep deletion. Refused with `BoundaryMismatch` exactly
    /// when `e` is not alive.
    pub fn entity_destroy(&mut self, e: u64) -> (r: Result<(), EcsError>)
        requires
            old(self).wf(),
        ensures
            final(self).wf(),
            r is Ok <==> old(self).alive(e),
            r matches Err(err) ==> *final(self) == *old(self) && err is BoundaryMismatch,
            r is Ok ==> {
                &&& !final(self).alive(e)
                &&& final(self).is_entity(e)
                &&& final(self).parent_of(e) is None
                &&& forall|c: u64| !final(self).attached(e, c)
                &&& final(self).entities@ == old(self).entities@.update(e as int - 1, false)
                &&& final(self).parents@ == old(self).parents@.update(
                    e as int - 1,
                    None::<u64>,
                )
                &&& forall|e2: u64|
                    e2 != e ==> #[trigger] final(self).alive(e2) == old(self).alive(e2)
                &&& forall|e2: u64|
                    e2 != e ==> #[trigger] final(self).parent_of(e2) == old(self).parent_of(e2)
                &&& forall|e2: u64, c2: u64|
                    e2 != e ==> #[trigger] final(self).attached(e2, c2) == old(self).attached(
                        e2,
                        c2,
                    )
                &&& forall|e2: u64, c2: u64|
                    e2 != e && old(self).attached(e2, c2) ==> #[trigger] final(self).cell(e2, c2)
                        == old(self).cell(e2, c2)
                &&& final(self).components == old(self).components
                &&& final(self).singletons == old(self).singletons
                &&& final(self).queries == old(self).queries
                &&& final(self).systems == old(self).systems
                &&& final(self).max_entities == old(self).max_entities
                &&& final(self).iterating == old(self).iterating
            },
    {
        if !self.entity_alive(e) {
            return Err(EcsError::BoundaryMismatch);
        }
        let ei = self.eix(e);
        let ghost pre = *self;
        self.entities[ei] = false;
        self.parents[ei] = None;
        let row = &mut self.cells[ei];
        row.clear();
        proof {
            let post = *self;
            assert forall|ee: int, cc: int|
                0 <= ee < post.cells@.len() && 0 <= cc
                    < post.cells@[ee]@.len() implies #[trigger] post.cell_ok(ee, cc) by {
                assert(post.cells@[ee]@[cc] == pre.cells@[ee]@[cc]);
                assert(pre.cell_ok(ee, cc));
            }
            assert forall|q: int| 0 <= q < post.queries@.len() implies #[trigger] post.query_ok(
                q,
            ) by {
                assert(pre.query_ok(q));
            }
            assert forall|cc: int| 0 <= cc < post.singletons@.len() implies #[trigger] post
                .singleton_ok(cc) by {
                assert(pre.singleton_ok(cc));
            }
            assert forall|ee: int| 0 <= ee < post.entities@.len() implies #[trigger] post
                .dead_clean(ee) by {
                assert(pre.dead_clean(ee));
            }
            assert forall|e2: u64, c2: u64| e2 != e implies #[trigger] post.attached(e2, c2)
                == pre.attached(e2, c2) by {
                if post.is_entity(e2) && e2 != e {
                    assert(post.cells@[e2 as int - 1] == pre.cells@[e2 as int - 1]);
                }
            }
            assert forall|e2: u64, c2: u64|
                e2 != e && pre.attached(e2, c2) implies #[trigger] post.cell(e2, c2) == pre.cell(
                e2,
                c2,
            ) by {
                assert(post.cells@[e2 as int - 1] == pre.cells@[e2 as int - 1]);
            }
        }
        Ok(())
    }

    /// Creates the world-scoped singleton instance of component `c`,
    /// zero-initialized per its schema; a second call is a no-op, never a
    /// duplicate instance. Refused with `BoundaryMismatch` exactly when `c`
    /// is not registered.
    pub fn singleton_add(&mut self, c: u64) -> (r: Result<(), EcsError>)
        requires
            old(self).wf(),
        ensures
            final(self).wf(),
            r is Ok <==> old(self).is_comp(c),
            r matches Err(err) ==> *final(self) == *old(self) && err is BoundaryMismatch,
            r is Ok && old(self).singleton_cell(c) is Some ==> *final(self) == *old(self),
            r is Ok && old(self).singleton_cell(c) is None ==> {
                &&& World::only_singletons_changed(*old(self), *final(self))
                &&& final(self).singleton_cell(c) == Some(default_cell(old(self).tags_of(c)))
                &&& forall|c2: u64|
                    c2 != c ==> #[trigger] final(self).singleton_cell(c2) == old(self).singleton_cell(c2)
            },
    {
        if !self.comp_registered(c) {
            return Err(EcsError::BoundaryMismatch);
        }
        let ci = self.cix(c);
        if self.singletons[ci].is_some() {
            return Ok(());
        }
        let vals = default_values(&self.components[ci].field_tags);
        proof {
            crate::value::lemma_default_cell_matches(self.components@[ci as int].field_tags@);
        }
        let ghost pre = *self;
        self.singletons[ci] = Some(vals);
        proof {
            let post = *self;
            assert forall|ee: int, cc: int|
                0 <= ee < post.cells@.len() && 0 <= cc
                    < post.cells@[ee]@.len() implies #[trigger] post.cell_ok(ee, cc) by {
                assert(pre.cell_ok(ee, cc));
            }
            assert forall|q: int| 0 <= q < post.queries@.len() implies #[trigger] post.query_ok(
                q,
            ) by {
                assert(pre.query_ok(q));
            }
            assert forall|cc: int| 0 <= cc < post.singletons@.len() implies #[trigger] post
                .singleton_ok(cc) by {
                if cc != ci {
                    assert(post.singletons@[cc] == pre.singletons@[cc]);
                    assert(pre.singleton_ok(cc));
                }
            }
            assert forall|ee: int| 0 <= ee < post.entities@.len() implies #[trigger] post
                .dead_clean(ee) by {
                assert(pre.dead_clean(ee));
            }
        }
        Ok(())
    }

    /// Returns the accessor onto the singleton instance of `c`.
    ///
    /// Refused with `BoundaryMismatch` when `c` is not registered, and with
    /// `NotAttached` — the recoverable condition — when no singleton instance
    /// was added.
    pub fn singleton_get(&self, c: u64) -> (r: Result<&Vec<Value>, EcsError>)
        requires
            self.wf(),
        ensures
            r is Ok <==> self.singleton_cell(c) is Some,
            r matches Ok(vals) ==> Some(vals.deep_view()) == self.singleton_cell(c),
            r matches Err(err) ==> (if !self.is_comp(c) {
                err is BoundaryMismatch
            } else {
                err is NotAttached
            }),
    {
        if !self.comp_registered(c) {
            return Err(EcsError::BoundaryMismatch);
        }
        let ci = self.cix(c);
        match &self.singletons[ci] {
            Some(vals) => Ok(vals),
            None => Err(EcsError::NotAttached),
        }
    }

    /// Success condition of `singleton_set`: the singleton exists and the
    /// field index and value kind match the declared layout.
    pub open spec fn singleton_set_ok(self, c: u64, field: int, v: ValueModel) -> bool {
        &&& self.singleton_cell(c) is Some
        &&& 0 <= field < self.tags_of(c).len()
        &&& tag_of(v) == self.tags_of(c)[field]
    }

    /// Writes one field of the singleton instance of `c`.
    ///
    /// Refused with `NotAttached` when no singleton instance exists, and with
    /// `BoundaryMismatch` when `c` is not registered, the field index is out
    /// of range, or the value kind does not match the declared layout.
    pub fn singleton_set(&mut self, c: u64, field: usize, v: Value) -> (r: Result<(), EcsError>)
        requires
            old(self).wf(),
        ensures
            final(self).wf(),
            r is Ok <==> old(self).singleton_set_ok(c, field as int, v@),
            r matches Err(err) ==> *final(self) == *old(self) && (if !old(self).is_comp(c) {
                err is BoundaryMismatch
            } else if old(self).singleton_cell(c) is None {
                err is NotAttached
            } else {
                err is BoundaryMismatch
            }),
            r is Ok ==> {
                &&& World::only_singletons_changed(*old(self), *final(self))
                &&& final(self).singleton_cell(c) == Some(
                    old(self).singleton_cell(c)->0.update(field as int, v@),
                )
                &&& forall|c2: u64|
                    c2 != c ==> #[trigger] final(self).singleton_cell(c2) == old(self).singleton_cell(c2)
            },
    {
        if !self.comp_registered(c) {
            return Err(EcsError::BoundaryMismatch);
        }
        let ci = self.cix(c);
        if self.singletons[ci].is_none() {
            return Err(EcsError::NotAttached);
        }
        if field >= self.components[ci].field_tags.len() {
            return Err(EcsError::BoundaryMismatch);
        }
        let expected = self.components[ci].field_tags[field];
        if v.tag() != expected {
            return Err(EcsError::BoundaryMismatch);
        }
        let ghost pre = *self;
        let ghost vm = v@;
        match &mut self.singletons[ci] {
            Some(vals) => {
                proof {
                    assert(pre.singleton_ok(ci as int));
                    assert(vals.deep_view().len() == pre.tags_of(c).len());
                }
                vals[field] = v;
                proof {
                    assert forall|k: int| 0 <= k < vals.deep_view().len() implies (
                    #[trigger] vals.deep_view()[k]) == pre.singleton_cell(c)->0.update(
                        field as int,
                        vm,
                    )[k] by {
                        assert(vals.deep_view()[k] == vals@[k].deep_view());
                    }
                    assert(vals.deep_view() =~= pre.singleton_cell(c)->0.update(
                        field as int,
                        vm,
                    ));
                    assert(values_match(vals.deep_view(), pre.tags_of(c)));
                }
            },
            None => {
                proof {
                    assert(false);
                }
            },
        }
        proof {
            let post = *self;
            assert(post.singletons@[ci as int] is Some);
            assert forall|ee: int, cc: int|
                0 <= ee < post.cells@.len() && 0 <= cc
                    < post.cells@[ee]@.len() implies #[trigger] post.cell_ok(ee, cc) by {
                assert(pre.cell_ok(ee, cc));
            }
            assert forall|q: int| 0 <= q < post.queries@.len() implies #[trigger] post.query_ok(
                q,
            ) by {
                assert(pre.query_ok(q));
            }
            assert forall|cc: int| 0 <= cc < post.singletons@.len() implies #[trigger] post
                .singleton_ok(cc) by {
                if cc != ci {
                    assert(post.singletons@[cc] == pre.singletons@[cc]);
                    assert(pre.singleton_ok(cc));
                }
            }
            assert forall|ee: int| 0 <= ee < post.entities@.len() implies #[trigger] post
                .dead_clean(ee) by {
                assert(pre.dead_clean(ee));
            }
        }
        Ok(())
    }
}

} // verus!
