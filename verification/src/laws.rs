use vstd::prelude::*;

use crate::query::occurrences;
use crate::value::{default_cell, default_model};
use crate::world::World;

verus! {

/// A freshly attached component reads back as a non-empty accessor holding
/// the zero/empty value of each declared field — nothing else — until a
/// write changes it. The premises are what `World::entity_add` ensures on
/// the fresh-attachment path; `World::entity_get` then returns exactly this
/// cell.
pub proof fn lemma_fresh_attachment_reads_defaults(pre: World, post: World, e: u64, c: u64)
    requires
        pre.wf(),
        pre.add_ok(e, c),
        !pre.attached(e, c),
        World::only_cells_changed(pre, post),
        post.attached(e, c),
        post.cell(e, c) == default_cell(pre.tags_of(c)),
    ensures
        post.attached(e, c),
        post.cell(e, c).len() == pre.tags_of(c).len(),
        forall|j: int|
            0 <= j < post.cell(e, c).len() ==> post.cell(e, c)[j] == default_model(
                pre.tags_of(c)[j],
            ),
{
    assert forall|j: int| 0 <= j < post.cell(e, c).len() implies post.cell(e, c)[j]
        == default_model(pre.tags_of(c)[j]) by {
        assert(default_cell(pre.tags_of(c))[j] == default_model(pre.tags_of(c)[j]));
    }
}

/// Re-parenting last-write-wins: after the parent edge of `child` is set to
/// `p1` and then to `p2`, exactly one edge is active and it points at `p2`;
/// every other entity's edge is as it was. The premises are what two
/// successful `World::entity_child_of` calls ensure.
pub proof fn lemma_reparent_last_write_wins(
    w0: World,
    w1: World,
    w2: World,
    child: u64,
    p1: u64,
    p2: u64,
)
    requires
        w0.wf(),
        w0.child_of_ok(child, p1),
        World::only_parents_changed(w0, w1),
        w1.parents@ == w0.parents@.update(child as int - 1, Some(p1)),
        w1.child_of_ok(child, p2),
        World::only_parents_changed(w1, w2),
        w2.parents@ == w1.parents@.update(child as int - 1, Some(p2)),
    ensures
        w2.parent_of(child) == Some(p2),
        forall|e2: u64| e2 != child ==> #[trigger] w2.parent_of(e2) == w0.parent_of(e2),
{
    assert(w2.entities@ == w0.entities@);
    assert forall|e2: u64| e2 != child implies #[trigger] w2.parent_of(e2) == w0.parent_of(e2) by {
        if w0.is_entity(e2) {
            assert(w2.parents@[e2 as int - 1] == w0.parents@[e2 as int - 1]);
        }
    }
}

/// The matched sequence of a filter lists ids from `1 ..= n`, each exactly
/// once if it satisfies the filter and not at all otherwise.
proof fn lemma_matched_upto_occurrences(w: World, comps: Seq<u64>, n: int, e: u64)
    requires
        0 <= n <= u64::MAX,
    ensures
        occurrences(w.matched_upto(comps, n), e) == (if 1 <= e && e as int <= n
            && w.entity_matches(comps, e) {
            1nat
        } else {
            0nat
        }),
    decreases n,
{
    if n <= 0 {
    } else {
        lemma_matched_upto_occurrences(w, comps, n - 1, e);
        let prev = w.matched_upto(comps, n - 1);
        let cur = w.matched_upto(comps, n);
        if w.entity_matches(comps, n as u64) {
            assert(cur == prev.push(n as u64));
            assert(cur.len() == prev.len() + 1);
            assert(cur.drop_last() =~= prev);
            assert(cur.last() == n as u64);
            assert(occurrences(cur, e) == occurrences(prev, e) + (if n as u64 == e {
                1nat
            } else {
                0nat
            }));
        } else {
            assert(cur == prev);
        }
    }
}

/// A sequence contains an id exactly when it occurs at least once.
proof fn lemma_occurrences_contains(s: Seq<u64>, x: u64)
    ensures
        (occurrences(s, x) > 0) <==> s.contains(x),
    decreases s.len(),
{
    if s.len() == 0 {
    } else {
        lemma_occurrences_contains(s.drop_last(), x);
        if occurrences(s, x) > 0 {
            if s.last() == x {
                assert(s[s.len() - 1] == x);
            } else {
                let i = choose|i: int| 0 <= i < s.drop_last().len() && s.drop_last()[i] == x;
                assert(s[i] == x);
            }
        }
        if s.contains(x) {
            let i = choose|i: int| 0 <= i < s.len() && s[i] == x;
            if i < s.len() - 1 {
                assert(s.drop_last()[i] == x);
                assert(s.drop_last().contains(x));
            }
        }
    }
}

/// Round trip of a presence query: an alive entity carrying every component
/// of the filter is listed exactly once by an iteration pass over that
/// filter; an entity missing any filtered component — for instance after it
/// was removed — is not listed at all.
pub proof fn lemma_query_round_trip(w: World, comps: Seq<u64>, e: u64)
    requires
        w.ent_count() <= u64::MAX,
    ensures
        w.entity_matches(comps, e) ==> occurrences(w.matched(comps), e) == 1,
        !w.entity_matches(comps, e) ==> !w.matched(comps).contains(e),
{
    if w.entity_matches(comps, e) {
        assert(w.is_entity(e));
        lemma_matched_upto_occurrences(w, comps, w.ent_count(), e);
    } else {
        lemma_matched_upto_occurrences(w, comps, w.ent_count(), e);
        lemma_occurrences_contains(w.matched(comps), e);
    }
}

/// A detached component excludes its entity from every later pass: once
/// `c` is not attached to `e` and `c` stands in the filter, `e` is not
/// listed.
pub proof fn lemma_removed_entity_excluded(w: World, comps: Seq<u64>, e: u64, c: u64)
    requires
        w.ent_count() <= u64::MAX,
        comps.contains(c),
        !w.attached(e, c),
    ensures
        !w.matched(comps).contains(e),
{
    let i = choose|i: int| 0 <= i < comps.len() && comps[i] == c;
    assert(!w.entity_matches(comps, e));
    lemma_query_round_trip(w, comps, e);
}

} // verus!
