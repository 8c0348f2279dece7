//! Keyed tables modeled as sequences of entries with pairwise-distinct keys.
//!
//! Every component of the sequencer state (balances, nonces, bridge
//! accounts, validator set, and the fee-asset and relayer membership sets)
//! is a sequence of entries together with a key function.  The functions
//! here give the common vocabulary — membership, lookup index, upsert and
//! removal — and the lemmas relating them, generic over the entry type and
//! the key type.

use vstd::prelude::*;

verus! {

/// Whether some entry of `s` has key `k` under key function `f`.
pub open spec fn has_key<T, K>(s: Seq<T>, f: spec_fn(T) -> K, k: K) -> bool {
    exists|i: int| 0 <= i < s.len() && f(#[trigger] s[i]) == k
}

/// The index of the entry with key `k`; meaningful only when `has_key`
/// holds, and unique when the keys of `s` are pairwise distinct.
pub open spec fn idx_of<T, K>(s: Seq<T>, f: spec_fn(T) -> K, k: K) -> int {
    choose|i: int| 0 <= i < s.len() && f(#[trigger] s[i]) == k
}

/// Keys of `s` are pairwise distinct.
pub open spec fn wf_keys<T, K>(s: Seq<T>, f: spec_fn(T) -> K) -> bool {
    forall|i: int, j: int| #![trigger s[i], s[j]] 0 <= i < j < s.len() ==> f(s[i]) != f(s[j])
}

/// Replaces the entry with the key of `e`, or appends `e` when no entry has
/// that key.
pub open spec fn upsert<T, K>(s: Seq<T>, f: spec_fn(T) -> K, e: T) -> Seq<T> {
    if has_key(s, f, f(e)) {
        s.update(idx_of(s, f, f(e)), e)
    } else {
        s.push(e)
    }
}

/// Removes the entry with key `k`, if any.
pub open spec fn remove_key<T, K>(s: Seq<T>, f: spec_fn(T) -> K, k: K) -> Seq<T> {
    if has_key(s, f, k) {
        s.remove(idx_of(s, f, k))
    } else {
        s
    }
}

/// With distinct keys, the lookup index is the one position carrying `k`.
pub proof fn lemma_idx_of<T, K>(s: Seq<T>, f: spec_fn(T) -> K, k: K)
    requires
        wf_keys(s, f),
        has_key(s, f, k),
    ensures
        0 <= idx_of(s, f, k) < s.len(),
        f(s[idx_of(s, f, k)]) == k,
        forall|j: int| 0 <= j < s.len() && f(#[trigger] s[j]) == k ==> j == idx_of(s, f, k),
{
    let i = idx_of(s, f, k);
    assert(0 <= i < s.len() && f(s[i]) == k);
    assert forall|j: int| 0 <= j < s.len() && f(#[trigger] s[j]) == k implies j == i by {
        if j < i {
            assert(f(s[j]) != f(s[i]));
        } else if i < j {
            assert(f(s[i]) != f(s[j]));
        }
    }
}

/// Effect of `upsert` on key distinctness, membership, and lookups.
pub proof fn lemma_upsert<T, K>(s: Seq<T>, f: spec_fn(T) -> K, e: T)
    requires
        wf_keys(s, f),
    ensures
        wf_keys(upsert(s, f, e), f),
        has_key(upsert(s, f, e), f, f(e)),
        upsert(s, f, e)[idx_of(upsert(s, f, e), f, f(e))] == e,
        forall|k2: K| k2 != f(e) ==> has_key(upsert(s, f, e), f, k2) == has_key(s, f, k2),
        forall|k2: K|
            k2 != f(e) && has_key(s, f, k2) ==> upsert(s, f, e)[idx_of(
                upsert(s, f, e),
                f,
                k2,
            )] == s[idx_of(s, f, k2)],
{
    let k = f(e);
    let r = upsert(s, f, e);
    if has_key(s, f, k) {
        let i = idx_of(s, f, k);
        lemma_idx_of(s, f, k);
        assert(r =~= s.update(i, e));
        assert forall|p: int, q: int| 0 <= p < q < r.len() implies f(r[p]) != f(r[q]) by {
            if p != i && q != i {
                assert(r[p] == s[p] && r[q] == s[q]);
            } else if p == i {
                assert(f(r[p]) == k && r[q] == s[q]);
                assert(f(s[i]) == k);
            } else {
                assert(f(r[q]) == k && r[p] == s[p]);
                assert(f(s[i]) == k);
            }
        }
        assert(f(r[i]) == k);
        assert(has_key(r, f, k));
        lemma_idx_of(r, f, k);
        assert forall|k2: K| k2 != k implies has_key(r, f, k2) == has_key(s, f, k2) by {
            if has_key(s, f, k2) {
                let j = idx_of(s, f, k2);
                lemma_idx_of(s, f, k2);
                assert(j != i);
                assert(f(r[j]) == k2);
            }
            if has_key(r, f, k2) {
                let j = idx_of(r, f, k2);
                lemma_idx_of(r, f, k2);
                assert(j != i);
                assert(f(s[j]) == k2);
            }
        }
        assert forall|k2: K| k2 != k && has_key(s, f, k2) implies r[idx_of(r, f, k2)] == s[idx_of(
            s,
            f,
            k2,
        )] by {
            let j = idx_of(s, f, k2);
            lemma_idx_of(s, f, k2);
            assert(j != i);
            assert(f(r[j]) == k2);
            lemma_idx_of(r, f, k2);
        }
    } else {
        assert(r =~= s.push(e));
        assert forall|p: int, q: int| 0 <= p < q < r.len() implies f(r[p]) != f(r[q]) by {
            if q == s.len() {
                assert(r[p] == s[p] && r[q] == e);
                assert(!(f(s[p]) == k));
            } else {
                assert(r[p] == s[p] && r[q] == s[q]);
            }
        }
        assert(f(r[s.len() as int]) == k);
        assert(has_key(r, f, k));
        lemma_idx_of(r, f, k);
        assert forall|k2: K| k2 != k implies has_key(r, f, k2) == has_key(s, f, k2) by {
            if has_key(s, f, k2) {
                let j = idx_of(s, f, k2);
                lemma_idx_of(s, f, k2);
                assert(f(r[j]) == k2);
            }
            if has_key(r, f, k2) {
                let j = idx_of(r, f, k2);
                lemma_idx_of(r, f, k2);
                assert(j != s.len());
                assert(f(s[j]) == k2);
            }
        }
        assert forall|k2: K| k2 != k && has_key(s, f, k2) implies r[idx_of(r, f, k2)] == s[idx_of(
            s,
            f,
            k2,
        )] by {
            let j = idx_of(s, f, k2);
            lemma_idx_of(s, f, k2);
            assert(f(r[j]) == k2);
            lemma_idx_of(r, f, k2);
        }
    }
}

/// Effect of `remove_key` on key distinctness, membership, and lookups.
pub proof fn lemma_remove_key<T, K>(s: Seq<T>, f: spec_fn(T) -> K, k: K)
    requires
        wf_keys(s, f),
    ensures
        wf_keys(remove_key(s, f, k), f),
        !has_key(remove_key(s, f, k), f, k),
        forall|k2: K| k2 != k ==> has_key(remove_key(s, f, k), f, k2) == has_key(s, f, k2),
        forall|k2: K|
            k2 != k && has_key(s, f, k2) ==> remove_key(s, f, k)[idx_of(
                remove_key(s, f, k),
                f,
                k2,
            )] == s[idx_of(s, f, k2)],
{
    let r = remove_key(s, f, k);
    if has_key(s, f, k) {
        let i = idx_of(s, f, k);
        lemma_idx_of(s, f, k);
        assert(r =~= s.remove(i));
        // Each position of the shortened sequence maps to an old position.
        assert forall|p: int| 0 <= p < r.len() implies r[p] == s[if p < i {
            p
        } else {
            p + 1
        }] by {}
        assert forall|p: int, q: int| 0 <= p < q < r.len() implies f(r[p]) != f(r[q]) by {
            let p0 = if p < i { p } else { p + 1 };
            let q0 = if q < i { q } else { q + 1 };
            assert(r[p] == s[p0] && r[q] == s[q0]);
            assert(p0 < q0);
        }
        assert forall|p: int| 0 <= p < r.len() implies f(r[p]) != k by {
            let p0 = if p < i { p } else { p + 1 };
            assert(r[p] == s[p0]);
            assert(p0 != i);
            if p0 < i {
                assert(f(s[p0]) != f(s[i]));
            } else {
                assert(f(s[i]) != f(s[p0]));
            }
        }
        assert forall|k2: K| k2 != k implies has_key(r, f, k2) == has_key(s, f, k2) by {
            if has_key(s, f, k2) {
                let j = idx_of(s, f, k2);
                lemma_idx_of(s, f, k2);
                assert(j != i);
                let p = if j < i { j } else { j - 1 };
                assert(r[p] == s[j]);
                assert(f(r[p]) == k2);
            }
            if has_key(r, f, k2) {
                let p = idx_of(r, f, k2);
                lemma_idx_of(r, f, k2);
                let p0 = if p < i { p } else { p + 1 };
                assert(r[p] == s[p0]);
                assert(f(s[p0]) == k2);
            }
        }
        assert forall|k2: K| k2 != k && has_key(s, f, k2) implies r[idx_of(r, f, k2)] == s[idx_of(
            s,
            f,
            k2,
        )] by {
            let j = idx_of(s, f, k2);
            lemma_idx_of(s, f, k2);
            assert(j != i);
            let p = if j < i { j } else { j - 1 };
            assert(r[p] == s[j]);
            assert(f(r[p]) == k2);
            lemma_idx_of(r, f, k2);
        }
    }
}

} // verus!
