//! Ghost bookkeeping for the reference-counted state store.
//!
//! The state store maps each visited-set key to one state; every state but
//! the initial one points at a predecessor key, the visited set with the
//! last-visited bit cleared.  A key's reference count must equal the
//! number of live states that point at it — the garbage-collection
//! invariant.  This module defines that child set and proves how it moves
//! under the three mutations the store undergoes: adding a fresh state,
//! rewriting a state in place, and removing a state.

use crate::state::EssPlayer;
use vstd::prelude::*;
use vstd::set_lib::lemma_len_subset;

verus! {

/// The keys of live states that point at `k` as their predecessor.  The
/// initial key points at nothing.
pub open spec fn children(store: Map<u64, EssPlayer>, k: u64) -> Set<u64> {
    store.dom().filter(|c: u64| c != 0u64 && store[c].pred_bits() == k)
}

/// A stored state agrees with its key and the level's location count.
pub open spec fn entry_ok(n: u8, k: u64, p: EssPlayer) -> bool {
    p.visited.bits == k && p.wf(n)
}

/// Adding a fresh state with predecessor `p.pred_bits()` adds its key to
/// exactly that child set.
pub proof fn lemma_children_insert_fresh(store: Map<u64, EssPlayer>, c: u64, p: EssPlayer)
    requires
        !store.contains_key(c),
        c != 0,
    ensures
        forall|t: u64| #[trigger]
            children(store.insert(c, p), t) == (if t == p.pred_bits() {
                children(store, t).insert(c)
            } else {
                children(store, t)
            }),
{
    assert forall|t: u64| #[trigger]
        children(store.insert(c, p), t) == (if t == p.pred_bits() {
            children(store, t).insert(c)
        } else {
            children(store, t)
        }) by {
        if t == p.pred_bits() {
            assert(children(store.insert(c, p), t) =~= children(store, t).insert(c));
        } else {
            assert(children(store.insert(c, p), t) =~= children(store, t));
        }
    }
}

/// Rewriting the state at `c` moves `c` from its old predecessor's child
/// set to its new predecessor's.
pub proof fn lemma_children_update(store: Map<u64, EssPlayer>, c: u64, p: EssPlayer)
    requires
        store.contains_key(c),
        c != 0,
    ensures
        forall|t: u64| #[trigger]
            children(store.insert(c, p), t) == (if t == p.pred_bits() {
                children(store, t).insert(c)
            } else {
                children(store, t).remove(c)
            }),
{
    assert forall|t: u64| #[trigger]
        children(store.insert(c, p), t) == (if t == p.pred_bits() {
            children(store, t).insert(c)
        } else {
            children(store, t).remove(c)
        }) by {
        if t == p.pred_bits() {
            assert(children(store.insert(c, p), t) =~= children(store, t).insert(c));
        } else {
            assert(children(store.insert(c, p), t) =~= children(store, t).remove(c));
        }
    }
}

/// Removing the state at `c` removes `c` from every child set.
pub proof fn lemma_children_remove(store: Map<u64, EssPlayer>, c: u64)
    requires
        store.contains_key(c),
    ensures
        forall|t: u64| #[trigger]
            children(store.remove(c), t) == children(store, t).remove(c),
{
    assert forall|t: u64| #[trigger]
        children(store.remove(c), t) == children(store, t).remove(c) by {
        assert(children(store.remove(c), t) =~= children(store, t).remove(c));
    }
}

/// The candidate keys reachable from `k` by setting one of the lowest `m`
/// bits.
spec fn cand(k: u64, m: int) -> Set<u64>
    decreases m,
{
    if m <= 0 {
        Set::empty()
    } else {
        cand(k, m - 1).insert(k | (1u64 << ((m - 1) as u64)))
    }
}

proof fn lemma_cand_finite(k: u64, m: int)
    requires
        0 <= m <= 64,
    ensures
        cand(k, m).finite(),
        cand(k, m).len() <= m,
    decreases m,
{
    if m > 0 {
        lemma_cand_finite(k, m - 1);
    }
}

proof fn lemma_cand_contains(k: u64, j: u64, m: int)
    requires
        (j as int) < m <= 64,
    ensures
        cand(k, m).contains(k | (1u64 << j)),
    decreases m,
{
    if (j as int) < m - 1 {
        lemma_cand_contains(k, j, m - 1);
    }
}

/// A key differs from its predecessor in exactly the last-visited bit.
pub proof fn lemma_key_from_pred(c: u64, l: u64)
    requires
        l < 64,
        (c >> l) & 1u64 == 1u64,
    ensures
        c == (c & !(1u64 << l)) | (1u64 << l),
        (c & !(1u64 << l)) < c,
        c != 0,
{
    assert((c >> l) & 1u64 == 1u64 && l < 64 ==> c == (c & !(1u64 << l)) | (1u64 << l) && (c & !(
        1u64 << l)) < c && c != 0u64) by (bit_vector);
}

/// Every well-formed store gives each key at most 64 children: a child is
/// its predecessor with one of 64 bits set.
pub proof fn lemma_children_le_64(store: Map<u64, EssPlayer>, k: u64, n: u8)
    requires
        store.dom().finite(),
        n <= 64,
        forall|c: u64| #[trigger]
            store.contains_key(c) ==> entry_ok(n, c, store[c]),
    ensures
        children(store, k).finite(),
        children(store, k).len() <= 64,
{
    store.dom().lemma_len_filter(
        |c: u64| c != 0u64 && store[c].pred_bits() == k,
    );
    lemma_cand_finite(k, 64);
    assert forall|c: u64| children(store, k).contains(c) implies cand(k, 64).contains(c) by {
        let p = store[c];
        let l = p.last_visit as u64;
        assert(p.visited.has(l));
        lemma_key_from_pred(c, l);
        lemma_cand_contains(k, l, 64);
        assert(c == k | (1u64 << l));
    }
    lemma_len_subset(children(store, k), cand(k, 64));
}

} // verus!
