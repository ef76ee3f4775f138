//! The keyed state store: a structural diff that matches retained
//! per-item state across frames by a stable key rather than by position.
//!
//! Given the previous frame's state list with its keys, and the current
//! frame's keys, the diff says for each current key whether the key's old
//! state is to be reused (unchanged) or fresh state must be constructed.
//! Matching by key keeps state alive across insertions, removals and
//! reorderings in the middle of the list, where a positional diff would
//! discard it. The old list is consumed into a hash map keyed by the item
//! key and entries are removed as they are reused, so the whole pass is
//! O(n) amortized.
//!
//! Keys must be unique within one frame; that is the caller's contract.

use vstd::prelude::*;

use std::collections::HashMap;

verus! {

broadcast use vstd::std_specs::hash::group_hash_axioms;

/// What [`keyed_diff`] promises: the plan `r` pairs every new key, in
/// order, with the old state retained for that key — unchanged — or with
/// `None` where the key is new this frame.
pub open spec fn reuse_plan<T>(
    old_keys: Seq<u64>,
    old_children: Seq<T>,
    new_keys: Seq<u64>,
    r: Seq<(u64, Option<T>)>,
) -> bool {
    &&& r.len() == new_keys.len()
    &&& forall|i: int| 0 <= i < new_keys.len() ==> (#[trigger] r[i]).0 == new_keys[i]
    &&& forall|i: int|
        0 <= i < new_keys.len() && old_keys.contains(new_keys[i]) ==> (#[trigger] r[i]).1 == Some(
            old_children[old_keys.index_of(new_keys[i])],
        )
    &&& forall|i: int|
        0 <= i < new_keys.len() && !old_keys.contains(new_keys[i]) ==> (#[trigger] r[i]).1 is None
}

/// Diff the previous frame's `(state, key)` list against the current
/// frame's key list.
///
/// Returns, for each key of the current frame in order, the retained
/// state to reuse for that key, or `None` where fresh state must be
/// constructed because the key was absent last frame.
pub fn keyed_diff<T>(old_children: Vec<T>, old_keys: Vec<u64>, new_keys: &Vec<u64>) -> (r: Vec<
    (u64, Option<T>),
>)
    requires
        old_children@.len() == old_keys@.len(),
        old_keys@.no_duplicates(),
        new_keys@.no_duplicates(),
    ensures
        reuse_plan(old_keys@, old_children@, new_keys@, r@),
{
    let ghost ok0 = old_keys@;
    let ghost tc0 = old_children@;
    let ghost n = old_keys@.len() as int;

    let mut children = old_children;
    let mut keys = old_keys;
    let mut map: HashMap<u64, T> = HashMap::new();
    while keys.len() > 0
        invariant
            tc0.len() == n,
            ok0.len() == n,
            ok0.no_duplicates(),
            keys@.len() <= n,
            children@ == tc0.take(keys@.len() as int),
            keys@ == ok0.take(keys@.len() as int),
            forall|j: int|
                keys@.len() <= j < n ==> map@.contains_key(#[trigger] ok0[j]) && map@[ok0[j]]
                    == tc0[j],
            forall|k: u64|
                map@.contains_key(k) ==> exists|j: int| keys@.len() <= j < n && ok0[j] == k,
        decreases keys@.len(),
    {
        let ghost m = keys@.len() as int;
        assert(keys@[m - 1] == ok0[m - 1] && children@[m - 1] == tc0[m - 1]);
        let t = children.pop().unwrap();
        let k = keys.pop().unwrap();
        assert(k == ok0[m - 1] && t == tc0[m - 1]);
        map.insert(k, t);
        proof {
            assert(children@ =~= tc0.take(m - 1));
            assert(keys@ =~= ok0.take(m - 1));
        }
    }

    let mut r: Vec<(u64, Option<T>)> = Vec::new();
    let mut i: usize = 0;
    while i < new_keys.len()
        invariant
            tc0.len() == n,
            ok0.len() == n,
            ok0.no_duplicates(),
            new_keys@.no_duplicates(),
            i <= new_keys@.len(),
            r@.len() == i,
            forall|j: int|
                0 <= j < n && !new_keys@.take(i as int).contains(#[trigger] ok0[j])
                    ==> map@.contains_key(ok0[j]) && map@[ok0[j]] == tc0[j],
            forall|k: u64|
                map@.contains_key(k) ==> exists|j: int|
                    0 <= j < n && ok0[j] == k && !new_keys@.take(i as int).contains(k),
            forall|p: int| 0 <= p < i ==> (#[trigger] r@[p]).0 == new_keys@[p],
            forall|p: int|
                0 <= p < i && ok0.contains(new_keys@[p]) ==> (#[trigger] r@[p]).1 == Some(
                    tc0[ok0.index_of(new_keys@[p])],
                ),
            forall|p: int|
                0 <= p < i && !ok0.contains(new_keys@[p]) ==> (#[trigger] r@[p]).1 is None,
        decreases new_keys@.len() - i,
    {
        let k = new_keys[i];
        proof {
            if ok0.contains(k) {
                let j = ok0.index_of(k);
                assert(!new_keys@.take(i as int).contains(k)) by {
                    assert(forall|p: int|
                        0 <= p < i ==> #[trigger] new_keys@.take(i as int)[p] == new_keys@[p]);
                }
                assert(map@.contains_key(ok0[j]) && map@[ok0[j]] == tc0[j]);
            } else {
                if map@.contains_key(k) {
                    let j = choose|j: int|
                        0 <= j < n && ok0[j] == k && !new_keys@.take(i as int).contains(k);
                    assert(ok0.contains(k));
                }
            }
        }
        let got = map.remove(&k);
        proof {
            if ok0.contains(k) {
                let j = ok0.index_of(k);
                assert(got == Some(tc0[j]));
            }
        }
        r.push((k, got));
        proof {
            assert(forall|j: int|
                0 <= j < n && !new_keys@.take(i as int + 1).contains(#[trigger] ok0[j])
                    ==> !new_keys@.take(i as int).contains(ok0[j]) && ok0[j] != k) by {
                assert(forall|j: int, p: int|
                    0 <= j < n && 0 <= p < i && #[trigger] new_keys@.take(i as int)[p]
                        == #[trigger] ok0[j] ==> new_keys@.take(i as int + 1)[p] == ok0[j]);
                assert(forall|j: int|
                    0 <= j < n && #[trigger] ok0[j] == k ==> new_keys@.take(i as int + 1)[i as int]
                        == k);
            }
        }
        i = i + 1;
    }
    r
}

/// Law: for any reordering of a fixed key set, every key's retained state
/// is carried over unchanged by the diff — only its position moves.
pub proof fn lemma_reorder_reuses_all_state<T>(
    old_keys: Seq<u64>,
    old_children: Seq<T>,
    new_keys: Seq<u64>,
    r: Seq<(u64, Option<T>)>,
)
    requires
        old_keys.len() == old_children.len(),
        old_keys.no_duplicates(),
        new_keys.no_duplicates(),
        new_keys.to_set() == old_keys.to_set(),
        reuse_plan(old_keys, old_children, new_keys, r),
    ensures
        r.len() == new_keys.len(),
        forall|i: int|
            0 <= i < new_keys.len() ==> (#[trigger] r[i]).1 == Some(
                old_children[old_keys.index_of(new_keys[i])],
            ),
{
    assert forall|i: int| 0 <= i < new_keys.len() implies (#[trigger] r[i]).1 == Some(
        old_children[old_keys.index_of(new_keys[i])],
    ) by {
        assert(new_keys.to_set().contains(new_keys[i])) by {
            broadcast use vstd::seq_lib::group_seq_properties;

        }
        assert(old_keys.to_set().contains(new_keys[i]));
        assert(old_keys.contains(new_keys[i])) by {
            broadcast use vstd::seq_lib::group_seq_properties;

        }
    }
}

} // verus!
