//! A concurrent memoizing cache with single-flight computation.
//!
//! For any key, the compute step runs at most once across all concurrent
//! callers: the first caller to request a key creates the key's slot and
//! holds its exclusive write lock while computing; everyone else finds the
//! slot and blocks on its shared read lock until the value is published.
//! A short-lived outer lock protects only the key-to-slot table, so callers
//! for different keys never wait for one another's computations.
//!
//! The cache carries a caller-chosen ghost invariant over (key, value)
//! pairs. Every value ever stored satisfies it, so every caller gets a value
//! satisfying it, no matter which caller's computation produced the value.
//! The compute step is treated as infallible (it returns a value, not a
//! result): there is no error channel, no retry, and a stored value is never
//! overwritten. Callers waiting on a key share the fate of that key's one
//! computation: they are unblocked the moment it returns, and a compute step
//! that never returns (one that panics or hangs) leaves that one key's
//! waiters waiting; callers for other keys are unaffected either way.

use std::sync::Arc;
use vstd::prelude::*;
use vstd::rwlock::RwLock;
use vstd::std_specs::cmp::PartialEqSpec;

verus! {

/// One slot: `None` until the creating caller publishes the computed value,
/// `Some` and read-only forever after.
type Slot<V> = Arc<RwLock<Option<V>, spec_fn(Option<V>) -> bool>>;

type Table<K, V> = Vec<(Arc<K>, Slot<V>)>;

/// The invariant a key's slot maintains: whatever value it publishes
/// satisfies the cache's (key, value) invariant at that key.
pub open spec fn slot_inv<K, V>(p: spec_fn(K, V) -> bool, k: K) -> spec_fn(Option<V>) -> bool {
    |ov: Option<V>| ov matches Some(v) ==> p(k, v)
}

/// Key equality as the key type's own equality specifies it.
pub open spec fn key_eq_spec<K: PartialEq>(a: K, b: K) -> bool {
    a.eq_spec(&b)
}

/// The invariant of the key-to-slot table: each slot is governed exactly by
/// `slot_inv` at its own key, and no key has two slots — each key's single
/// slot is what makes its computation single-flight.
pub open spec fn table_inv<K: PartialEq, V>(p: spec_fn(K, V) -> bool) -> spec_fn(
    Table<K, V>,
) -> bool {
    |m: Table<K, V>|
        {
            &&& forall|i: int|
                0 <= i < m@.len() ==> (#[trigger] m@[i]).1.pred() == slot_inv(p, *m@[i].0)
            &&& forall|i: int, j: int|
                #![trigger m@[i], m@[j]]
                0 <= i < j < m@.len() ==> !key_eq_spec(*m@[i].0, *m@[j].0)
        }
}

/// Relies on std's Arc::clone: the new handle shares the same allocation, so
/// it carries the same value.
#[verifier::external_body]
fn arc_clone<T>(a: &Arc<T>) -> (res: Arc<T>)
    ensures
        **a == *res,
{
    a.clone()
}

/// A concurrent single-flight memoizing cache from keys to values.
#[verifier::reject_recursive_types(K)]
#[verifier::reject_recursive_types(V)]
pub struct Cache<K, V> {
    inv: Ghost<spec_fn(K, V) -> bool>,
    table: RwLock<Table<K, V>, spec_fn(Table<K, V>) -> bool>,
}

impl<K: PartialEq, V: Copy> Cache<K, V> {
    /// The ghost (key, value) invariant every stored value satisfies.
    pub closed spec fn inv_fn(&self) -> spec_fn(K, V) -> bool {
        self.inv@
    }

    pub closed spec fn wf(&self) -> bool {
        self.table.pred() == table_inv::<K, V>(self.inv@)
    }

    /// An empty cache whose values will all satisfy `p` at their key.
    pub fn with_invariant(Ghost(p): Ghost<spec_fn(K, V) -> bool>) -> (c: Self)
        ensures
            c.wf(),
            c.inv_fn() == p,
    {
        let t: Table<K, V> = Vec::new();
        assert((table_inv::<K, V>(p))(t));
        Cache { inv: Ghost(p), table: RwLock::new(t, Ghost(table_inv::<K, V>(p))) }
    }

    /// An empty cache with the trivial invariant.
    pub fn new() -> (c: Self)
        ensures
            c.wf(),
            c.inv_fn() == (|k: K, v: V| true),
    {
        Self::with_invariant(Ghost(|k: K, v: V| true))
    }

    /// Return the cached value for `key`, computing it with `func` if this is
    /// the first request for `key`. The compute step runs at most once per
    /// key across all concurrent callers; callers for other keys are never
    /// blocked behind it, and every caller for `key` gets the single stored
    /// value (here: a value satisfying the cache invariant at `key`, whether
    /// this call or an earlier one computed it).
    pub fn get_or_insert_with<F: Fn(&K) -> V>(&self, key: K, func: &F) -> (r: V)
        requires
            self.wf(),
            K::obeys_eq_spec(),
            forall|k1: K, k2: K, v: V|
                #![trigger k1.eq_spec(&k2), (self.inv_fn())(k1, v)]
                k1.eq_spec(&k2) && (self.inv_fn())(k1, v) ==> (self.inv_fn())(k2, v),
            call_requires(func, (&key,)),
            forall|v: V| call_ensures(func, (&key,), v) ==> (self.inv_fn())(key, v),
        ensures
            (self.inv_fn())(key, r),
    {
        let ghost p = self.inv@;
        let key_arc: Arc<K> = Arc::new(key);
        let (mut table, table_wh) = self.table.acquire_write();
        assert((table_inv::<K, V>(p))(table));

        let mut found: Option<usize> = None;
        let mut i: usize = 0;
        while i < table.len()
            invariant
                0 <= i <= table@.len(),
                *key_arc == key,
                K::obeys_eq_spec(),
                found matches Some(j) ==> 0 <= j < table@.len()
                    && (*table@[j as int].0).eq_spec(&key),
                found is None ==> forall|q: int|
                    0 <= q < i ==> !key_eq_spec(*(#[trigger] table@[q]).0, key),
            ensures
                found is None ==> forall|q: int|
                    0 <= q < table@.len() ==> !key_eq_spec(*(#[trigger] table@[q]).0, key),
            decreases table@.len() - i,
        {
            if *table[i].0 == *key_arc {
                found = Some(i);
                break ;
            }
            i = i + 1;
        }

        match found {
            Some(j) => {
                // Someone else created this key's slot; wait (on the slot's
                // read lock) until its writer has published, then share the
                // stored value. The outer lock is released first, so this
                // wait never blocks callers for other keys.
                let slot: Slot<V> = arc_clone(&table[j].1);
                assert((*slot).pred() == slot_inv(p, *table@[j as int].0));
                assert((*table@[j as int].0).eq_spec(&key));
                assert forall|v: V| #[trigger] p(*table@[j as int].0, v) implies p(key, v) by {
                    assert((self.inv_fn())(*table@[j as int].0, v));
                    assert((self.inv_fn())(key, v));
                }
                table_wh.release_write(table);
                let rh = (*slot).acquire_read();
                let got: Option<V> = *rh.borrow();
                rh.release_read();
                match got {
                    Some(v) => v,
                    None => {
                        // Unreachable in any execution: the slot's creator
                        // acquires the write lock before the slot becomes
                        // visible and publishes the value on release, so a
                        // read can only observe the published value.
                        // Computing here is a harmless fallback.
                        func(&*key_arc)
                    },
                }
            },
            None => {
                // First request for this key: create its slot and take the
                // slot's write lock before the slot becomes visible, then
                // release the outer lock, so the (possibly slow) computation
                // below serializes nothing but requests for this very key.
                let sp: Ghost<spec_fn(Option<V>) -> bool> = Ghost(
                    |ov: Option<V>| ov matches Some(v) ==> p(*key_arc, v),
                );
                proof {
                    assert(sp@ =~= slot_inv(p, *key_arc));
                }
                let slot: Slot<V> = Arc::new(RwLock::new(None, sp));
                let (_empty, slot_wh) = (*slot).acquire_write();
                let slot_for_table = arc_clone(&slot);
                let ghost old_table = table@;
                table.push((arc_clone(&key_arc), slot_for_table));
                assert forall|k: int| 0 <= k < table@.len() implies (#[trigger] table@[k]).1.pred()
                    == slot_inv(p, *table@[k].0) by {
                    if k < old_table.len() {
                        assert(table@[k] == old_table[k]);
                    }
                }
                assert forall|x: int, y: int|
                    #![trigger table@[x], table@[y]]
                    0 <= x < y < table@.len() implies !key_eq_spec(*table@[x].0, *table@[y].0) by {
                    if y < old_table.len() {
                        assert(table@[x] == old_table[x]);
                        assert(table@[y] == old_table[y]);
                    } else {
                        assert(table@[x] == old_table[x]);
                        assert(*table@[y].0 == key);
                        assert(!key_eq_spec(*old_table[x].0, key));
                    }
                }
                table_wh.release_write(table);

                let v = func(&*key_arc);
                slot_wh.release_write(Some(v));
                v
            },
        }
    }
}

/// Law (all callers share one value): under an invariant that pins each
/// key's value — as the reachability cache's invariant pins a key's value to
/// the probe verdict for exactly that endpoint — any two values the cache
/// ever hands out for one key are equal, whichever caller computed the value
/// and however the calls interleaved.
pub proof fn lemma_single_value_per_key<K, V>(
    p: spec_fn(K, V) -> bool,
    pinned: spec_fn(K) -> V,
    key: K,
    r1: V,
    r2: V,
)
    requires
        forall|k: K, v: V| #[trigger] p(k, v) ==> v == pinned(k),
        p(key, r1),
        p(key, r2),
    ensures
        r1 == r2,
{
}

impl<K: PartialEq, V: Copy> Default for Cache<K, V> {
    fn default() -> (c: Self)
        ensures
            c.wf(),
            c.inv_fn() == (|k: K, v: V| true),
    {
        Cache::new()
    }
}

} // verus!
