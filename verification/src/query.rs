use vstd::prelude::*;

use crate::errors::EcsError;
use crate::value::{dup_values, Value, ValueModel};
use crate::world::{SystemRec, World};

verus! {

/// One iteration batch: the matched entities of one storage table, in
/// creation order.
#[derive(Debug)]
pub struct Batch {
    pub entities: Vec<u64>,
}

/// A finished iteration pass over a query: the batches the world produced
/// for it, walked front to back.
#[derive(Debug)]
pub struct QueryIter {
    pub batches: Vec<Batch>,
    pub pos: usize,
}

/// How many times `x` occurs in `s`.
pub open spec fn occurrences(s: Seq<u64>, x: u64) -> nat
    decreases s.len(),
{
    if s.len() == 0 {
        0
    } else {
        occurrences(s.drop_last(), x) + if s.last() == x {
            1nat
        } else {
            0nat
        }
    }
}

/// The batches of one iteration pass: entities grouped into a single table
/// batch holding exactly the matched entities, or no batch at all when
/// nothing matches.
pub open spec fn batches_for(w: World, comps: Seq<u64>, batches: Seq<Batch>) -> bool {
    if w.matched(comps).len() == 0 {
        batches.len() == 0
    } else {
        batches.len() == 1 && batches[0].entities@ == w.matched(comps)
    }
}

impl QueryIter {
    /// The cursor never passes the end.
    pub open spec fn wf(self) -> bool {
        self.pos <= self.batches@.len()
    }

    /// The continuation flag: whether a batch is still pending. Query it
    /// before dereferencing columns.
    pub fn more_batches(&self) -> (r: bool)
        ensures
            r == (self.pos < self.batches@.len()),
    {
        self.pos < self.batches.len()
    }

    /// The pending batch, or `None` once the pass is exhausted — never an
    /// out-of-range access.
    pub fn current(&self) -> (r: Option<&Batch>)
        ensures
            self.pos < self.batches@.len() ==> (r matches Some(b) && *b == self.batches@[self.pos as int]),
            self.pos >= self.batches@.len() ==> r is None,
    {
        if self.pos < self.batches.len() {
            Some(&self.batches[self.pos])
        } else {
            None
        }
    }

    /// Steps past the pending batch; a step at the end is a no-op.
    pub fn advance(&mut self)
        requires
            old(self).wf(),
        ensures
            final(self).wf(),
            final(self).batches == old(self).batches,
            final(self).pos == if old(self).pos < old(self).batches@.len() {
                old(self).pos + 1
            } else {
                old(self).pos as int
            },
    {
        if self.pos < self.batches.len() {
            self.pos = self.pos + 1;
        }
    }
}

impl World {
    /// Whether `q` is a handle the world issued for a query.
    pub open spec fn is_query(self, q: u64) -> bool {
        1 <= q && q as int <= self.queries@.len()
    }

    /// The component filter recorded under query handle `q`.
    pub open spec fn query_comps(self, q: u64) -> Seq<u64> {
        self.queries@[q as int - 1]@
    }

    /// An entity satisfies a presence filter: it is alive and carries every
    /// listed component.
    pub open spec fn entity_matches(self, comps: Seq<u64>, e: u64) -> bool {
        &&& self.alive(e)
        &&& forall|i: int| 0 <= i < comps.len() ==> self.attached(e, #[trigger] comps[i])
    }

    /// The entities among ids `1 ..= n` that satisfy the filter, in id order.
    pub open spec fn matched_upto(self, comps: Seq<u64>, n: int) -> Seq<u64>
        decreases n,
    {
        if n <= 0 {
            Seq::empty()
        } else if self.entity_matches(comps, n as u64) {
            self.matched_upto(comps, n - 1).push(n as u64)
        } else {
            self.matched_upto(comps, n - 1)
        }
    }

    /// The entities that satisfy the filter, in creation order.
    pub open spec fn matched(self, comps: Seq<u64>) -> Seq<u64> {
        self.matched_upto(comps, self.ent_count())
    }

    /// Success condition of `query_build`: every filtered id is registered
    /// and a query slot is free.
    pub open spec fn query_build_ok(self, comps: Seq<u64>) -> bool {
        &&& forall|i: int| 0 <= i < comps.len() ==> self.is_comp(#[trigger] comps[i])
        &&& self.queries@.len() < usize::MAX as int
    }

    /// Returns whether entity `e` satisfies the filter.
    pub fn matches_filter(&self, e: u64, comps: &Vec<u64>) -> (r: bool)
        requires
            self.wf(),
        ensures
            r == self.entity_matches(comps@, e),
    {
        if !self.entity_alive(e) {
            return false;
        }
        let mut i: usize = 0;
        while i < comps.len()
            invariant
                self.wf(),
                self.alive(e),
                i <= comps@.len(),
                forall|k: int| 0 <= k < i ==> self.attached(e, #[trigger] comps@[k]),
            decreases comps@.len() - i,
        {
            if !self.is_attached(e, comps[i]) {
                proof {
                    assert(!self.attached(e, comps@[i as int]));
                }
                return false;
            }
            i = i + 1;
        }
        true
    }

    /// Finalizes a presence filter into a persistent query and hands out its
    /// handle.
    ///
    /// Refused with `BoundaryMismatch` when some filtered id is not a
    /// registered component, and with `ResourceExhausted` when no query slot
    /// is free; succeeds exactly otherwise.
    pub fn query_build(&mut self, comps: Vec<u64>) -> (r: Result<u64, EcsError>)
        requires
            old(self).wf(),
        ensures
            final(self).wf(),
            r is Ok <==> old(self).query_build_ok(comps@),
            r matches Err(err) ==> *final(self) == *old(self) && (if !(forall|i: int|
                0 <= i < comps@.len() ==> old(self).is_comp(#[trigger] comps@[i])) {
                err is BoundaryMismatch
            } else {
                err is ResourceExhausted
            }),
            r matches Ok(h) ==> {
                &&& h as int == old(self).queries@.len() + 1
                &&& final(self).is_query(h)
                &&& final(self).query_comps(h) == comps@
                &&& final(self).queries@ == old(self).queries@.push(comps)
                &&& final(self).components == old(self).components
                &&& final(self).entities == old(self).entities
                &&& final(self).cells == old(self).cells
                &&& final(self).parents == old(self).parents
                &&& final(self).singletons == old(self).singletons
                &&& final(self).systems == old(self).systems
                &&& final(self).max_entities == old(self).max_entities
                &&& final(self).iterating == old(self).iterating
            },
    {
        let mut i: usize = 0;
        while i < comps.len()
            invariant
                self.wf(),
                *self == *old(self),
                i <= comps@.len(),
                forall|k: int| 0 <= k < i ==> self.is_comp(#[trigger] comps@[k]),
            decreases comps@.len() - i,
        {
            if !self.comp_registered(comps[i]) {
                proof {
                    assert(!self.is_comp(comps@[i as int]));
                }
                return Err(EcsError::BoundaryMismatch);
            }
            i = i + 1;
        }
        if self.queries.len() == usize::MAX {
            return Err(EcsError::ResourceExhausted);
        }
        let h = (self.queries.len() as u64) + 1;
        let ghost pre = *self;
        self.queries.push(comps);
        proof {
            let post = *self;
            assert forall|ee: int, cc: int|
                0 <= ee < post.cells@.len() && 0 <= cc
                    < post.cells@[ee]@.len() implies #[trigger] post.cell_ok(ee, cc) by {
                assert(pre.cell_ok(ee, cc));
            }
            assert forall|q: int| 0 <= q < post.queries@.len() implies #[trigger] post.query_ok(
                q,
            ) by {
                if q < pre.queries@.len() {
                    assert(pre.query_ok(q));
                }
            }
            assert forall|cc: int| 0 <= cc < post.singletons@.len() implies #[trigger] post
                .singleton_ok(cc) by {
                assert(pre.singleton_ok(cc));
            }
            assert forall|ee: int| 0 <= ee < post.entities@.len() implies #[trigger] post
                .dead_clean(ee) by {
                assert(pre.dead_clean(ee));
            }
        }
        Ok(h)
    }

    /// Registers a system: the query with handle `query` bound to the opaque
    /// `callback` token, appended in registration order. Refused with
    /// `BoundaryMismatch` exactly when the handle is not a query.
    pub fn add_system(&mut self, query: u64, callback: u64) -> (r: Result<(), EcsError>)
        requires
            old(self).wf(),
        ensures
            final(self).wf(),
            r is Ok <==> old(self).is_query(query),
            r matches Err(err) ==> *final(self) == *old(self) && err is BoundaryMismatch,
            r is Ok ==> {
                &&& final(self).systems@ == old(self).systems@.push(SystemRec { query, callback })
                &&& final(self).components == old(self).components
                &&& final(self).entities == old(self).entities
                &&& final(self).cells == old(self).cells
                &&& final(self).parents == old(self).parents
                &&& final(self).singletons == old(self).singletons
                &&& final(self).queries == old(self).queries
                &&& final(self).max_entities == old(self).max_entities
                &&& final(self).iterating == old(self).iterating
            },
    {
        if !(query >= 1 && query - 1 < self.queries.len() as u64) {
            return Err(EcsError::BoundaryMismatch);
        }
        let ghost pre = *self;
        self.systems.push(SystemRec { query, callback });
        proof {
            let post = *self;
            assert forall|ee: int, cc: int|
                0 <= ee < post.cells@.len() && 0 <= cc
                    < post.cells@[ee]@.len() implies #[trigger] post.cell_ok(ee, cc) by {
                assert(pre.cell_ok(ee, cc));
            }
            assert forall|q: int| 0 <= q < post.queries@.len() implies #[trigger] post.query_ok(
                q,
            ) by {
                assert(pre.query_ok(q));
            }
            assert forall|cc: int| 0 <= cc < post.singletons@.len() implies #[trigger] post
                .singleton_ok(cc) by {
                assert(pre.singleton_ok(cc));
            }
            assert forall|ee: int| 0 <= ee < post.entities@.len() implies #[trigger] post
                .dead_clean(ee) by {
                assert(pre.dead_clean(ee));
            }
        }
        Ok(())
    }

    /// The matched entities, front to back.
    fn collect_matched(&self, comps: &Vec<u64>) -> (r: Vec<u64>)
        requires
            self.wf(),
        ensures
            r@ == self.matched(comps@),
    {
        let mut r: Vec<u64> = Vec::new();
        let mut n: usize = 0;
        while n < self.entities.len()
            invariant
                self.wf(),
                n <= self.ent_count(),
                r@ == self.matched_upto(comps@, n as int),
            decreases self.ent_count() - n,
        {
            n = n + 1;
            if self.matches_filter(n as u64, comps) {
                r.push(n as u64);
            }
        }
        r
    }

    /// Runs one iteration pass of the query with handle `q`: the matched
    /// entities, grouped into one table batch (or none when nothing
    /// matches), behind a cursor that answers the "more batches?" question.
    /// Refused with `BoundaryMismatch` exactly when `q` is not a query
    /// handle.
    pub fn query_iter(&self, q: u64) -> (r: Result<QueryIter, EcsError>)
        requires
            self.wf(),
        ensures
            r is Ok <==> self.is_query(q),
            r matches Err(err) ==> err is BoundaryMismatch,
            r matches Ok(it) ==> it.pos == 0 && it.wf() && batches_for(
                *self,
                self.query_comps(q),
                it.batches@,
            ),
    {
        if !(q >= 1 && q - 1 < self.queries.len() as u64) {
            return Err(EcsError::BoundaryMismatch);
        }
        let n = self.queries.len();
        proof {
            assert(q as int - 1 < n as int);
        }
        let qi = (q - 1) as usize;
        let matched = self.collect_matched(&self.queries[qi]);
        let mut batches: Vec<Batch> = Vec::new();
        if matched.len() > 0 {
            batches.push(Batch { entities: matched });
        }
        Ok(QueryIter { batches, pos: 0 })
    }

    /// The column of one component over one batch: per batch entity, a copy
    /// of its instance's field values. An entity that does not carry the
    /// component — possible only if the batch does not belong to the current
    /// tick's pass — yields an empty column entry rather than an undefined
    /// access.
    pub fn batch_column(&self, batch: &Batch, c: u64) -> (r: Vec<Vec<Value>>)
        requires
            self.wf(),
        ensures
            r@.len() == batch.entities@.len(),
            forall|i: int|
                0 <= i < r@.len() ==> (#[trigger] r@[i]).deep_view() == (if self.attached(
                    batch.entities@[i],
                    c,
                ) {
                    self.cell(batch.entities@[i], c)
                } else {
                    Seq::<ValueModel>::empty()
                }),
    {
        let mut r: Vec<Vec<Value>> = Vec::new();
        let mut i: usize = 0;
        while i < batch.entities.len()
            invariant
                self.wf(),
                i <= batch.entities@.len(),
                r@.len() == i,
                forall|k: int|
                    0 <= k < i ==> (#[trigger] r@[k]).deep_view() == (if self.attached(
                        batch.entities@[k],
                        c,
                    ) {
                        self.cell(batch.entities@[k], c)
                    } else {
                        Seq::<ValueModel>::empty()
                    }),
            decreases batch.entities@.len() - i,
        {
            let e = batch.entities[i];
            let ghost pre = r;
            match self.entity_get(e, c) {
                Some(vals) => {
                    r.push(dup_values(vals));
                },
                None => {
                    r.push(Vec::new());
                },
            }
            proof {
                assert(forall|k: int| 0 <= k < i ==> r@[k] == pre@[k]);
                assert(forall|k: int|
                    0 <= k < i ==> (#[trigger] r@[k]).deep_view() == pre@[k].deep_view());
            }
            i = i + 1;
        }
        r
    }

    /// Plans one scheduler tick: one step per registered system, in
    /// registration order, each carrying the system's callback token and a
    /// fresh iteration pass over its query. The embedding loop performs the
    /// callbacks; this layer decides what each one is shown.
    pub fn tick_plan(&self) -> (r: Vec<TickStep>)
        requires
            self.wf(),
        ensures
            r@.len() == self.systems@.len(),
            forall|i: int|
                0 <= i < r@.len() ==> {
                    &&& (#[trigger] r@[i]).callback == self.systems@[i].callback
                    &&& r@[i].iter.pos == 0
                    &&& r@[i].iter.wf()
                    &&& batches_for(
                        *self,
                        self.query_comps(self.systems@[i].query),
                        r@[i].iter.batches@,
                    )
                },
    {
        let mut r: Vec<TickStep> = Vec::new();
        let mut i: usize = 0;
        while i < self.systems.len()
            invariant
                self.wf(),
                i <= self.systems@.len(),
                r@.len() == i,
                forall|k: int|
                    0 <= k < i ==> {
                        &&& (#[trigger] r@[k]).callback == self.systems@[k].callback
                        &&& r@[k].iter.pos == 0
                        &&& r@[k].iter.wf()
                        &&& batches_for(
                            *self,
                            self.query_comps(self.systems@[k].query),
                            r@[k].iter.batches@,
                        )
                    },
            decreases self.systems@.len() - i,
        {
            let q = self.systems[i].query;
            let callback = self.systems[i].callback;
            let iter = match self.query_iter(q) {
                Ok(it) => it,
                Err(_) => {
                    proof {
                        assert(false);
                    }
                    QueryIter { batches: Vec::new(), pos: 0 }
                },
            };
            r.push(TickStep { callback, iter });
            i = i + 1;
        }
        r
    }
}

/// One planned step of a scheduler tick: which callback to perform, and the
/// iteration pass it is handed.
#[derive(Debug)]
pub struct TickStep {
    pub callback: u64,
    pub iter: QueryIter,
}

} // verus!
