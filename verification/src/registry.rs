use vstd::prelude::*;

use crate::errors::EcsError;
use crate::schema::{descriptor_of, dup_at, has_dup, ComponentDef};
use crate::world::World;

verus! {

/// A name occurs among the first `i` definitions of a batch.
pub open spec fn name_in_prefix(defs: Seq<ComponentDef>, i: int, n: Seq<char>) -> bool {
    exists|k: int| 0 <= k < i && (#[trigger] defs[k]).name@ == n
}

/// Taking one more definition into the prefix adds exactly its name.
proof fn lemma_name_in_prefix_step(defs: Seq<ComponentDef>, i: int, n: Seq<char>)
    requires
        0 <= i < defs.len(),
    ensures
        name_in_prefix(defs, i + 1, n) <==> (name_in_prefix(defs, i, n) || defs[i].name@ == n),
{
    if name_in_prefix(defs, i + 1, n) {
        let k = choose|k: int| 0 <= k < i + 1 && (#[trigger] defs[k]).name@ == n;
        if k < i {
            assert(name_in_prefix(defs, i, n));
        }
    }
    if name_in_prefix(defs, i, n) {
        let k = choose|k: int| 0 <= k < i && (#[trigger] defs[k]).name@ == n;
        assert((defs[k]).name@ == n);
        assert(name_in_prefix(defs, i + 1, n));
    }
    if defs[i].name@ == n {
        assert((defs[i]).name@ == n);
        assert(name_in_prefix(defs, i + 1, n));
    }
}

/// Extending the component table by one descriptor extends the stored name
/// set by exactly that descriptor's name.
proof fn lemma_has_comp_named_extend(pre: World, post: World, n_new: Seq<char>)
    requires
        post.comp_count() == pre.comp_count() + 1,
        forall|k: int|
            0 <= k < pre.comp_count() ==> #[trigger] post.components@[k] == pre.components@[k],
        post.components@[pre.comp_count()].name@ == n_new,
    ensures
        forall|n: Seq<char>|
            #[trigger] post.has_comp_named(n) <==> (pre.has_comp_named(n) || n_new == n),
{
    assert forall|n: Seq<char>| #[trigger] post.has_comp_named(n) <==> (pre.has_comp_named(n)
        || n_new == n) by {
        if post.has_comp_named(n) {
            let idx = choose|idx: int|
                0 <= idx < post.comp_count() && (#[trigger] post.components@[idx]).name@ == n;
            if idx < pre.comp_count() {
                assert((pre.components@[idx]).name@ == n);
            }
        }
        if pre.has_comp_named(n) {
            let idx = choose|idx: int|
                0 <= idx < pre.comp_count() && (#[trigger] pre.components@[idx]).name@ == n;
            assert((post.components@[idx]).name@ == n);
        }
        if n_new == n {
            assert((post.components@[pre.comp_count()]).name@ == n);
        }
    }
}

/// Success condition of `Registry::register_all`: no iteration window is
/// open (unless the batch is empty), the id space can take the whole batch,
/// no definition's name is stored already, and the batch itself repeats no
/// name.
pub open spec fn batch_register_ok(w: World, defs: Seq<ComponentDef>) -> bool {
    &&& defs.len() > 0 ==> !w.iterating
    &&& w.comp_count() + defs.len() <= usize::MAX as int
    &&& forall|j: int| 0 <= j < defs.len() ==> !w.has_comp_named((#[trigger] defs[j]).name@)
    &&& !has_dup(defs)
}

/// One cache entry: a stable per-type token mapped to the numeric component
/// id the world handed out for it.
pub struct RegEntry {
    pub token: u64,
    pub id: u64,
}

/// The id a token is cached under, if any (first match wins).
pub open spec fn cached_in(s: Seq<RegEntry>, token: u64) -> Option<u64>
    decreases s.len(),
{
    if s.len() == 0 {
        None
    } else if s[0].token == token {
        Some(s[0].id)
    } else {
        cached_in(s.drop_first(), token)
    }
}

/// Appending an entry answers exactly the tokens the cache did not already
/// answer.
pub proof fn lemma_cached_push(s: Seq<RegEntry>, x: RegEntry, t: u64)
    ensures
        cached_in(s.push(x), t) == (if cached_in(s, t) is Some {
            cached_in(s, t)
        } else if x.token == t {
            Some(x.id)
        } else {
            None
        }),
    decreases s.len(),
{
    assert(s.push(x).len() == s.len() + 1);
    if s.len() == 0 {
        assert(s.push(x)[0] == x);
        assert(s.push(x).drop_first() =~= Seq::<RegEntry>::empty());
        assert(cached_in(s.push(x).drop_first(), t) is None);
    } else {
        assert(s.push(x)[0] == s[0]);
        assert(s.push(x).drop_first() =~= s.drop_first().push(x));
        lemma_cached_push(s.drop_first(), x, t);
        assert(cached_in(s.push(x).drop_first(), t) == cached_in(s.drop_first().push(x), t));
    }
}

/// The lazily populated table mapping each stable per-type token to the
/// numeric component id the world assigned — the piece that makes repeated
/// logical registration idempotent and cheap.
pub struct Registry {
    pub entries: Vec<RegEntry>,
}

/// Success condition of the registering path of `Registry::register`,
/// phrased over the definition: it depends only on the component name.
pub open spec fn register_def_ok(w: World, def: ComponentDef) -> bool {
    &&& !w.iterating
    &&& w.comp_count() < usize::MAX as int
    &&& !w.has_comp_named(def.name@)
}

impl Registry {
    /// The id cached for `token`, if any.
    pub open spec fn cached(self, token: u64) -> Option<u64> {
        cached_in(self.entries@, token)
    }

    /// Creates an empty cache: no token answers yet.
    pub fn new() -> (r: Registry)
        ensures
            r.entries@.len() == 0,
            forall|t: u64| #[trigger] r.cached(t) is None,
    {
        Registry { entries: Vec::new() }
    }

    /// Looks a token up in the cache.
    pub fn lookup(&self, token: u64) -> (r: Option<u64>)
        ensures
            r == self.cached(token),
    {
        let mut i: usize = 0;
        proof {
            assert(self.entries@.skip(0) =~= self.entries@);
        }
        while i < self.entries.len()
            invariant
                i <= self.entries@.len(),
                cached_in(self.entries@.skip(i as int), token) == self.cached(token),
            decreases self.entries@.len() - i,
        {
            proof {
                assert(self.entries@.skip(i as int)[0] == self.entries@[i as int]);
                assert(self.entries@.skip(i as int).drop_first() =~= self.entries@.skip(
                    i as int + 1,
                ));
            }
            if self.entries[i].token == token {
                return Some(self.entries[i].id);
            }
            i = i + 1;
        }
        proof {
            assert(self.entries@.skip(self.entries@.len() as int) =~= Seq::<RegEntry>::empty());
        }
        None
    }

    /// Registers the component definition standing behind `token`, or answers
    /// from the cache.
    ///
    /// Registering the same logical component twice returns the same numeric
    /// id: once a token is cached, the cached id is returned and neither the
    /// cache nor the world changes. A fresh token sends the definition's
    /// descriptor to the world; on success the new id is cached under the
    /// token, on failure (per `World::register_component`) nothing changes.
    pub fn register(&mut self, w: &mut World, token: u64, def: &ComponentDef) -> (r: Result<
        u64,
        EcsError,
    >)
        requires
            old(w).wf(),
        ensures
            final(w).wf(),
            old(self).cached(token) matches Some(id) ==> r == Ok::<u64, EcsError>(id) && *final(self) == *old(self) && *final(w) == *old(w),
            old(self).cached(token) is None ==> {
                &&& (r is Ok <==> register_def_ok(*old(w), *def))
                &&& r matches Ok(id) ==> {
                    &&& id as int == old(w).comp_count() + 1
                    &&& final(w).is_comp(id)
                    &&& final(w).desc_of(id).wf()
                    &&& final(w).desc_of(id).matches_def(*def)
                    &&& final(w).components@.len() == old(w).components@.len() + 1
                    &&& forall|k: int|
                        0 <= k < old(w).components@.len() ==> #[trigger] final(w).components@[k]
                            == old(w).components@[k]
                    &&& final(w).singletons@.len() == old(w).singletons@.len() + 1
                    &&& forall|k: int|
                        0 <= k < old(w).singletons@.len() ==> #[trigger] final(w).singletons@[k]
                            == old(w).singletons@[k]
                    &&& final(w).singleton_cell(id) is None
                    &&& final(w).entities == old(w).entities
                    &&& final(w).cells == old(w).cells
                    &&& final(w).parents == old(w).parents
                    &&& final(w).queries == old(w).queries
                    &&& final(w).systems == old(w).systems
                    &&& final(w).max_entities == old(w).max_entities
                    &&& final(w).iterating == old(w).iterating
                    &&& final(self).cached(token) == Some(id)
                    &&& forall|t: u64|
                        t != token ==> #[trigger] final(self).cached(t) == old(self).cached(t)
                    &&& final(self).entries@ == old(self).entries@.push(RegEntry { token, id })
                }
                &&& r is Err ==> *final(self) == *old(self) && *final(w) == *old(w)
                &&& r matches Err(err) ==> (if old(w).iterating {
                    err is BoundaryMismatch
                } else if old(w).comp_count() >= usize::MAX as int {
                    err is ResourceExhausted
                } else {
                    err matches EcsError::RegistrationFailure(n) && n@ == def.name@
                })
            },
    {
        match self.lookup(token) {
            Some(id) => {
                return Ok(id);
            },
            None => {},
        }
        let desc = descriptor_of(def);
        let ghost dname = desc.name@;
        match w.register_component(desc) {
            Ok(id) => {
                let ghost pre = self.entries@;
                self.entries.push(RegEntry { token, id });
                proof {
                    assert forall|t: u64| true implies #[trigger] self.cached(t) == (if t == token {
                        Some(id)
                    } else {
                        cached_in(pre, t)
                    }) by {
                        lemma_cached_push(pre, RegEntry { token, id }, t);
                    }
                }
                Ok(id)
            },
            Err(e) => Err(e),
        }
    }

    /// Registers a batch of definitions under the consecutive tokens
    /// `first_token ..`, in order, against a fresh cache.
    ///
    /// Succeeds exactly under `batch_register_ok`: no open iteration window,
    /// a large enough id space, every name fresh, none repeated in the
    /// batch. On success the ids are consecutive — `ids[i]` is the world's
    /// next id after `i` earlier registrations — each descriptor carries its
    /// definition's content, and each token answers its id from the cache.
    /// On failure the error is fatal and earlier registrations of the batch
    /// stand, as startup aborts anyway.
    pub fn register_all(&mut self, w: &mut World, first_token: u64, defs: &Vec<ComponentDef>) -> (r:
        Result<Vec<u64>, EcsError>)
        requires
            old(w).wf(),
            forall|t: u64| #[trigger] old(self).cached(t) is None,
            1 <= first_token,
            first_token + defs@.len() <= u64::MAX,
        ensures
            final(w).wf(),
            final(w).entities == old(w).entities,
            final(w).cells == old(w).cells,
            final(w).parents == old(w).parents,
            final(w).queries == old(w).queries,
            final(w).systems == old(w).systems,
            final(w).max_entities == old(w).max_entities,
            final(w).iterating == old(w).iterating,
            r matches Ok(ids) ==> {
                &&& ids@.len() == defs@.len()
                &&& forall|i: int|
                    0 <= i < ids@.len() ==> (#[trigger] ids@[i]) as int == old(w).comp_count() + 1
                        + i
                &&& forall|i: int|
                    0 <= i < ids@.len() ==> final(w).is_comp(#[trigger] ids@[i]) && final(w).desc_of(
                        ids@[i],
                    ).wf() && final(w).desc_of(ids@[i]).matches_def(defs@[i])
                &&& forall|i: int|
                    0 <= i < ids@.len() ==> final(w).singleton_cell(#[trigger] ids@[i]) is None
                &&& forall|i: int|
                    0 <= i < ids@.len() ==> #[trigger] final(self).cached(
                        (first_token as int + i) as u64,
                    ) == Some(ids@[i])
                &&& final(w).comp_count() == old(w).comp_count() + defs@.len()
            },
            r matches Err(err) ==> err.spec_is_fatal(),
            r is Ok <==> batch_register_ok(*old(w), defs@),
    {
        let mut ids: Vec<u64> = Vec::new();
        let mut i: usize = 0;
        while i < defs.len()
            invariant
                old(w).wf(),
                w.wf(),
                1 <= first_token,
                first_token + defs@.len() <= u64::MAX,
                i <= defs@.len(),
                ids@.len() == i,
                w.comp_count() == old(w).comp_count() + i,
                forall|k: int|
                    0 <= k < i ==> (#[trigger] ids@[k]) as int == old(w).comp_count() + 1 + k,
                forall|k: int|
                    0 <= k < i ==> w.is_comp(#[trigger] ids@[k]) && w.desc_of(ids@[k]).wf()
                        && w.desc_of(ids@[k]).matches_def(defs@[k]),
                forall|k: int|
                    0 <= k < i ==> w.singleton_cell(#[trigger] ids@[k]) is None,
                forall|k: int|
                    0 <= k < i ==> #[trigger] self.cached((first_token as int + k) as u64) == Some(
                        ids@[k],
                    ),
                forall|t: u64|
                    t as int >= first_token as int + i ==> #[trigger] self.cached(t) is None,
                i > 0 ==> !old(w).iterating,
                forall|n: Seq<char>|
                    #[trigger] w.has_comp_named(n) <==> (old(w).has_comp_named(n)
                        || name_in_prefix(defs@, i as int, n)),
                forall|k: int|
                    0 <= k < i ==> !old(w).has_comp_named((#[trigger] defs@[k]).name@),
                forall|k: int| 0 <= k < i ==> !dup_at(defs@, k),
                w.entities == old(w).entities,
                w.cells == old(w).cells,
                w.parents == old(w).parents,
                w.queries == old(w).queries,
                w.systems == old(w).systems,
                w.max_entities == old(w).max_entities,
                w.iterating == old(w).iterating,
            decreases defs@.len() - i,
        {
            let token = first_token + (i as u64);
            let ghost pre_w = *w;
            let ghost pre_reg = *self;
            let ghost def_name = defs@[i as int].name@;
            let id = match self.register(w, token, &defs[i]) {
                Ok(id) => id,
                Err(e) => {
                    proof {
                        // The one rejected definition pins down which batch
                        // condition fails.
                        if pre_w.iterating {
                        } else if pre_w.comp_count() >= usize::MAX as int {
                            assert(old(w).comp_count() + defs@.len() > usize::MAX as int);
                        } else {
                            assert(pre_w.has_comp_named(def_name));
                            if !old(w).has_comp_named(def_name) {
                                assert(name_in_prefix(defs@, i as int, def_name));
                                let k = choose|k: int|
                                    0 <= k < i as int && (#[trigger] defs@[k]).name@ == def_name;
                                assert((defs@[k].name)@ == defs@[i as int].name@);
                                assert(dup_at(defs@, i as int));
                                assert(has_dup(defs@));
                            }
                        }
                        assert(!batch_register_ok(*old(w), defs@));
                    }
                    return Err(e);
                },
            };
            proof {
                // The accepted definition was fresh against the world so far:
                // its name is neither stored from before nor repeated in the
                // processed prefix.
                assert(!pre_w.has_comp_named(def_name));
                assert(!old(w).has_comp_named(def_name));
                assert(!name_in_prefix(defs@, i as int, def_name));
                assert forall|k2: int| 0 <= k2 < i as int + 1 implies !dup_at(defs@, k2) by {
                    if k2 == i as int && dup_at(defs@, k2) {
                        let k = choose|k: int|
                            0 <= k < k2 && (#[trigger] defs@[k].name)@ == defs@[k2].name@;
                        assert((defs@[k]).name@ == def_name);
                        assert(name_in_prefix(defs@, i as int, def_name));
                    }
                }
                // The stored name set grew by exactly the accepted name.
                assert(w.desc_of(id).matches_def(defs@[i as int]));
                assert(w.components@[pre_w.comp_count()].name@ == def_name);
                lemma_has_comp_named_extend(pre_w, *w, def_name);
                assert forall|n: Seq<char>| #[trigger] w.has_comp_named(n) <==> (old(
                    w,
                ).has_comp_named(n) || name_in_prefix(defs@, i as int + 1, n)) by {
                    lemma_name_in_prefix_step(defs@, i as int, n);
                }
            }
            ids.push(id);
            i = i + 1;
            proof {
                assert forall|k: int|
                    0 <= k < i implies w.is_comp(#[trigger] ids@[k]) && w.desc_of(ids@[k]).wf()
                    && w.desc_of(ids@[k]).matches_def(defs@[k]) by {
                    if k < i - 1 {
                        assert(w.components@[ids@[k] as int - 1] == pre_w.components@[ids@[k] as int
                            - 1]);
                    }
                }
                assert forall|k: int| 0 <= k < i implies w.singleton_cell(
                    #[trigger] ids@[k],
                ) is None by {
                    if k < i - 1 {
                        assert(w.singletons@[ids@[k] as int - 1] == pre_w.singletons@[ids@[k] as int
                            - 1]);
                    } else {
                        assert(w.singletons@[ids@[k] as int - 1] == None::<Vec<crate::value::Value>>);
                    }
                }
            }
        }
        let total = w.components.len();
        proof {
            assert(w.comp_count() == total as int);
            assert(old(w).comp_count() + defs@.len() <= usize::MAX as int);
            assert(!has_dup(defs@));
            assert(batch_register_ok(*old(w), defs@));
        }
        Ok(ids)
    }
}

} // verus!
