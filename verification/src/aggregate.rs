//! Order-restoring fan-in for the parallel per-repository computations.
//!
//! Workers finish in scheduling order, not input order. Each worker's result
//! is tagged with the index its repository had in the sorted input list;
//! `collect_ordered` rebuilds the presentation order from those tags, so the
//! output is deterministic and independent of scheduling. Failed
//! repositories simply have no tagged result and are omitted.

use vstd::prelude::*;

verus! {

/// The payload tagged with `idx`, if any; the earliest tag wins.
pub open spec fn lookup<T>(results: Seq<(usize, T)>, idx: int) -> Option<T>
    decreases results.len(),
{
    if results.len() == 0 {
        None
    } else if results[0].0 == idx {
        Some(results[0].1)
    } else {
        lookup(results.subrange(1, results.len() as int), idx)
    }
}

/// The payloads of indices `k` (inclusive) to `n` (exclusive), in index
/// order, indices without a payload omitted.
pub open spec fn ordered_from<T>(results: Seq<(usize, T)>, k: int, n: int) -> Seq<T>
    decreases n - k,
{
    if k >= n {
        seq![]
    } else {
        (match lookup(results, k) {
            Some(t) => seq![t],
            None => Seq::empty(),
        }) + ordered_from(results, k + 1, n)
    }
}

/// No index tags two results.
pub open spec fn distinct_indices<T>(results: Seq<(usize, T)>) -> bool {
    forall|i: int, j: int|
        0 <= i < j < results.len() ==> (#[trigger] results[i]).0 != (#[trigger] results[j]).0
}

/// Splitting one step off `ordered_from` at the high end.
proof fn lemma_ordered_snoc<T>(s: Seq<(usize, T)>, k: int, n: int)
    requires
        k <= n,
    ensures
        ordered_from(s, k, n + 1) == ordered_from(s, k, n) + (match lookup(s, n) {
            Some(t) => seq![t],
            None => Seq::<T>::empty(),
        }),
    decreases n - k,
{
    if k == n {
        assert(ordered_from(s, k, n) == Seq::<T>::empty());
        assert(ordered_from(s, n + 1, n + 1) == Seq::<T>::empty());
        assert(ordered_from(s, k, n + 1) =~= ordered_from(s, k, n) + (match lookup(s, n) {
            Some(t) => seq![t],
            None => Seq::<T>::empty(),
        }));
    } else {
        lemma_ordered_snoc(s, k + 1, n);
        assert(ordered_from(s, k, n + 1) =~= ordered_from(s, k, n) + (match lookup(s, n) {
            Some(t) => seq![t],
            None => Seq::<T>::empty(),
        }));
    }
}

/// Restore input order: place every tagged payload at its index and read
/// them off in ascending index order.
pub fn collect_ordered<T>(n: usize, results: Vec<(usize, T)>) -> (r: Vec<T>)
    requires
        forall|i: int| 0 <= i < results@.len() ==> (#[trigger] results@[i]).0 < n,
    ensures
        r@ == ordered_from(results@, 0, n as int),
{
    let ghost orig = results@;
    let mut slots: Vec<Option<T>> = Vec::new();
    let mut k: usize = 0;
    while k < n
        invariant
            k <= n,
            slots@.len() == k,
            forall|idx: int| 0 <= idx < k ==> slots@[idx] is None,
        decreases n - k,
    {
        slots.push(None);
        k = k + 1;
    }

    let mut rem = results;
    while rem.len() > 0
        invariant
            slots@.len() == n,
            rem@.len() <= orig.len(),
            rem@ == orig.take(rem@.len() as int),
            forall|i: int| 0 <= i < orig.len() ==> (#[trigger] orig[i]).0 < n,
            forall|idx: int|
                0 <= idx < n ==> slots@[idx] == lookup(orig.skip(rem@.len() as int), idx),
        decreases rem@.len(),
    {
        let ghost rem_old = rem@;
        let pair = match rem.pop() {
            Some(p) => p,
            None => {
                proof {
                    assert(false);
                }
                vstd::pervasive::unreached()
            },
        };
        proof {
            let l = rem_old.len() as int;
            assert(rem_old == orig.take(l));
            assert(pair == rem_old[l - 1]);
            assert(orig.take(l)[l - 1] == orig[l - 1]);
            assert(rem@ =~= orig.take(l - 1));
            let s2 = orig.skip(l - 1);
            assert(s2.subrange(1, s2.len() as int) =~= orig.skip(l));
            assert(s2[0] == orig[l - 1]);
        }
        let idx = pair.0;
        slots[idx] = Some(pair.1);
        proof {
            let s2 = orig.skip(rem@.len() as int);
            assert forall|q: int| 0 <= q < n implies slots@[q] == lookup(s2, q) by {
                if q != idx {
                    assert(lookup(s2, q) == lookup(s2.subrange(1, s2.len() as int), q));
                }
            }
        }
    }
    proof {
        assert(orig.skip(0) =~= orig);
    }

    let mut out: Vec<T> = Vec::new();
    let mut k2: usize = 0;
    while k2 < n
        invariant
            k2 <= n,
            slots@.len() == n,
            forall|idx: int| k2 <= idx < n ==> slots@[idx] == lookup(orig, idx),
            out@ == ordered_from(orig, 0, k2 as int),
        decreases n - k2,
    {
        let got = slots[k2].take();
        proof {
            lemma_ordered_snoc(orig, 0, k2 as int);
        }
        match got {
            Some(t) => {
                out.push(t);
            },
            None => {},
        }
        k2 = k2 + 1;
    }
    out
}

/// A successful lookup comes from some element with that tag.
proof fn lemma_lookup_some_contains<T>(s: Seq<(usize, T)>, idx: int, t: T)
    requires
        lookup(s, idx) == Some(t),
    ensures
        exists|i: int| 0 <= i < s.len() && (#[trigger] s[i]).0 == idx && s[i].1 == t,
    decreases s.len(),
{
    if s.len() > 0 {
        if s[0].0 == idx {
            assert(s[0].0 == idx && s[0].1 == t);
        } else {
            let s2 = s.subrange(1, s.len() as int);
            lemma_lookup_some_contains(s2, idx, t);
            let i = choose|i: int| 0 <= i < s2.len() && (#[trigger] s2[i]).0 == idx && s2[i].1
                == t;
            assert(s[i + 1].0 == idx && s[i + 1].1 == t);
        }
    }
}

/// With distinct tags, a contained element is what lookup finds.
proof fn lemma_contains_lookup<T>(s: Seq<(usize, T)>, p: (usize, T))
    requires
        distinct_indices(s),
        s.contains(p),
    ensures
        lookup(s, p.0 as int) == Some(p.1),
    decreases s.len(),
{
    if s.len() > 0 {
        if s[0].0 == p.0 {
            let i = choose|i: int| 0 <= i < s.len() && s[i] == p;
            assert(i == 0);
        } else {
            let s2 = s.subrange(1, s.len() as int);
            let i = choose|i: int| 0 <= i < s.len() && s[i] == p;
            assert(s2[i - 1] == p);
            assert(s2.contains(p));
            lemma_contains_lookup(s2, p);
        }
    }
}

/// Lookups agree everywhere, so the ordered fan-in agrees too.
proof fn lemma_ordered_congruent<T>(a: Seq<(usize, T)>, b: Seq<(usize, T)>, k: int, n: int)
    requires
        forall|idx: int| #![trigger lookup(a, idx)] lookup(a, idx) == lookup(b, idx),
    ensures
        ordered_from(a, k, n) == ordered_from(b, k, n),
    decreases n - k,
{
    if k < n {
        lemma_ordered_congruent(a, b, k + 1, n);
    }
}

/// Law: the restored output is independent of completion order. Two
/// tagged result sets that hold the same results — each repository reported
/// at most once — yield the same ordered output, no matter how the parallel
/// schedule interleaved them.
pub proof fn lemma_order_independent<T>(a: Seq<(usize, T)>, b: Seq<(usize, T)>, n: int)
    requires
        distinct_indices(a),
        distinct_indices(b),
        a.to_multiset() == b.to_multiset(),
    ensures
        ordered_from(a, 0, n) == ordered_from(b, 0, n),
{
    broadcast use vstd::seq_lib::group_to_multiset_ensures;

    assert forall|idx: int| #![trigger lookup(a, idx)] lookup(a, idx) == lookup(b, idx) by {
        match lookup(a, idx) {
            Some(t) => {
                lemma_lookup_some_contains(a, idx, t);
                let i = choose|i: int|
                    0 <= i < a.len() && (#[trigger] a[i]).0 == idx && a[i].1 == t;
                assert(a.contains(a[i]));
                assert(a.to_multiset().contains(a[i]));
                assert(b.to_multiset().contains(a[i]));
                assert(b.contains(a[i]));
                lemma_contains_lookup(b, a[i]);
            },
            None => {},
        }
        match lookup(b, idx) {
            Some(t) => {
                lemma_lookup_some_contains(b, idx, t);
                let i = choose|i: int|
                    0 <= i < b.len() && (#[trigger] b[i]).0 == idx && b[i].1 == t;
                assert(b.contains(b[i]));
                assert(b.to_multiset().contains(b[i]));
                assert(a.to_multiset().contains(b[i]));
                assert(a.contains(b[i]));
                lemma_contains_lookup(a, b[i]);
            },
            None => {},
        }
    }
    lemma_ordered_congruent(a, b, 0, n);
}

} // verus!
