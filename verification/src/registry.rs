//! The registry of calls that wait for their reply.
//!
//! A call that expects a reply leaves a waiter here under its correlation
//! id.  The waiter is whatever wakes the caller; the registry only keeps
//! it and hands it out again, exactly once, to whoever resolves the id or
//! cancels everything.

use std::collections::HashMap;
use vstd::prelude::*;
use vstd::std_specs::hash::*;
use vstd::std_specs::iter::IteratorSpec;

verus! {

broadcast use vstd::std_specs::hash::group_hash_axioms;

/// The waiters of the outstanding calls, by correlation id.
///
/// Its view is the map from each pending id to its waiter.
pub struct PendingCalls<W> {
    waiters: HashMap<i64, W>,
}

impl<W> View for PendingCalls<W> {
    type V = Map<i64, W>;

    closed spec fn view(&self) -> Map<i64, W> {
        self.waiters@
    }
}

/// Whether `entries` lists every entry of `pending` exactly once.
pub open spec fn lists_all<W>(entries: Seq<(i64, W)>, pending: Map<i64, W>) -> bool {
    &&& forall|i: int|
        0 <= i < entries.len() ==> pending.contains_key(#[trigger] entries[i].0)
            && pending[entries[i].0] == entries[i].1
    &&& forall|i: int, j: int|
        0 <= i < j < entries.len() ==> #[trigger] entries[i].0 != #[trigger] entries[j].0
    &&& forall|id: i64| #[trigger]
        pending.contains_key(id) ==> exists|i: int|
            0 <= i < entries.len() && #[trigger] entries[i].0 == id
}

impl<W> PendingCalls<W> {
    /// A registry with no call pending.
    pub fn new() -> (pending: Self)
        ensures
            pending@ == Map::<i64, W>::empty(),
    {
        PendingCalls { waiters: HashMap::new() }
    }

    /// How many calls are pending.
    pub fn len(&self) -> (n: usize)
        ensures
            n == self@.len(),
    {
        self.waiters.len()
    }

    /// Whether no call is pending.
    pub fn is_empty(&self) -> (empty: bool)
        ensures
            empty == (self@.len() == 0),
            empty == (self@ == Map::<i64, W>::empty()),
    {
        let n = self.waiters.len();
        proof {
            if n == 0 {
                assert(self@.dom().len() == 0);
                assert(self@.dom() =~= Set::<i64>::empty());
                assert(self@ =~= Map::<i64, W>::empty());
            }
        }
        n == 0
    }

    /// Whether a call is pending under `id`.
    pub fn is_pending(&self, id: i64) -> (pending: bool)
        ensures
            pending == self@.contains_key(id),
    {
        self.waiters.contains_key(&id)
    }

    /// Records `waiter` as the one to wake for `id`.
    ///
    /// An id can be pending only once: if `id` already is, nothing changes
    /// and the waiter comes back.
    pub fn register(&mut self, id: i64, waiter: W) -> (refused: Result<(), W>)
        ensures
            match refused {
                Ok(()) => !old(self)@.contains_key(id) && final(self)@ == old(self)@.insert(
                    id,
                    waiter,
                ),
                Err(w) => old(self)@.contains_key(id) && w == waiter && final(self)@ == old(
                    self,
                )@,
            },
    {
        if self.waiters.contains_key(&id) {
            Err(waiter)
        } else {
            self.waiters.insert(id, waiter);
            Ok(())
        }
    }

    /// Takes out the waiter of `id`, if a call is pending under it.
    ///
    /// No other entry is touched.  That nothing is pending under `id` is
    /// no error: the reply came late, or twice.
    pub fn resolve(&mut self, id: i64) -> (waiter: Option<W>)
        ensures
            waiter == if old(self)@.contains_key(id) {
                Some(old(self)@[id])
            } else {
                None
            },
            final(self)@ == old(self)@.remove(id),
    {
        self.waiters.remove(&id)
    }

    /// Takes out every waiter, each with its id, and leaves nothing
    /// pending.
    pub fn cancel_all(&mut self) -> (cancelled: Vec<(i64, W)>)
        ensures
            final(self)@ == Map::<i64, W>::empty(),
            lists_all(cancelled@, old(self)@),
            cancelled@.len() == old(self)@.len(),
    {
        let ghost before = self.waiters@;
        let ghost keys = spec_keys_iter(&self.waiters).remaining().unref();
        let mut ids: Vec<i64> = Vec::new();
        for id in it: self.waiters.keys()
            invariant
                it.seq().unref() == keys,
                ids@ == keys.take(it.index()),
        {
            ids.push(*id);
            assert(ids@ =~= keys.take(it.index() + 1));
        }
        assert(ids@ =~= keys);
        assert(keys.no_duplicates()) by {
            let refs = spec_keys_iter(&self.waiters).remaining();
            assert forall|i: int, j: int|
                0 <= i < keys.len() && 0 <= j < keys.len() && i != j implies keys[i]
                != keys[j] by {
                assert(refs[i] != refs[j]);
            }
        }
        let mut cancelled: Vec<(i64, W)> = Vec::new();
        let mut i: usize = 0;
        while i < ids.len()
            invariant
                0 <= i <= ids.len(),
                ids@ == keys,
                keys.no_duplicates(),
                keys.to_set() == before.dom(),
                cancelled@.len() == i,
                forall|j: int| 0 <= j < i ==> (#[trigger] cancelled@[j]).0 == keys[j],
                forall|j: int| 0 <= j < i ==> (#[trigger] cancelled@[j]).1 == before[keys[j]],
                self.waiters@ == before.remove_keys(keys.take(i as int).to_set()),
            decreases ids.len() - i,
        {
            let id: i64 = ids[i];
            assert(keys.contains(id));
            assert(before.dom().contains(id));
            let ghost shorter = keys.take(i as int);
            let ghost longer = keys.take(i as int + 1);
            assert(longer =~= shorter.push(id));
            assert(!shorter.contains(id)) by {
                if shorter.contains(id) {
                    let j = choose|j: int| 0 <= j < shorter.len() && shorter[j] == id;
                    assert(keys[j] == keys[i as int]);
                }
            }
            assert(longer.to_set() =~= shorter.to_set().insert(id)) by {
                assert forall|k: i64| #[trigger]
                    longer.to_set().contains(k) <==> shorter.to_set().insert(id).contains(
                        k,
                    ) by {
                    if longer.contains(k) {
                        let j = choose|j: int| 0 <= j < longer.len() && longer[j] == k;
                        if j < i {
                            assert(shorter[j] == k);
                        }
                    }
                    if shorter.contains(k) {
                        let j = choose|j: int| 0 <= j < shorter.len() && shorter[j] == k;
                        assert(longer[j] == k);
                    }
                    if k == id {
                        assert(longer[i as int] == k);
                    }
                }
            }
            assert(before.remove_keys(shorter.to_set()).remove(id) =~= before.remove_keys(
                longer.to_set(),
            ));
            match self.waiters.remove(&id) {
                Some(waiter) => {
                    cancelled.push((id, waiter));
                },
                None => {
                    assert(false);
                },
            }
            i = i + 1;
        }
        proof {
            assert(keys.take(keys.len() as int) =~= keys);
            assert(before.remove_keys(before.dom()) =~= Map::<i64, W>::empty());
            assert(self.waiters@ =~= Map::<i64, W>::empty());
            keys.unique_seq_to_set();
            assert forall|id: i64| #[trigger] before.contains_key(id) implies exists|j: int|
                0 <= j < cancelled@.len() && #[trigger] cancelled@[j].0 == id by {
                assert(keys.to_set().contains(id));
                let j = choose|j: int| 0 <= j < keys.len() && keys[j] == id;
                assert(cancelled@[j].0 == id);
            }
        }
        cancelled
    }
}

} // verus!
