use vstd::prelude::*;
use std::collections::hash_map::Entry;
use std::collections::HashMap;

verus! {

/// A value per thread, made on first use by `value_init`. Threads are
/// told apart by an integer id that the caller obtains for the current
/// thread.
pub struct ThreadMap<V, F> {
    state: HashMap<u64, V>,
    value_init: F,
}

impl<V, F: Fn() -> V> ThreadMap<V, F> {
    /// The value of each thread that has used the map.
    pub closed spec fn values(&self) -> Map<u64, V> {
        self.state@
    }

    /// What makes the value of a thread on its first use.
    pub closed spec fn init(&self) -> F {
        self.value_init
    }

    /// Create [`ThreadMap`]: no thread has a value yet.
    pub fn new(value_init: F) -> (r: Self)
        ensures
            r.values() == Map::<u64, V>::empty(),
            r.init() == value_init,
    {
        ThreadMap { state: HashMap::new(), value_init }
    }

    /// The value of thread `tid`, made by `value_init` if the thread has
    /// none yet.
    pub fn get_mut(&mut self, tid: u64) -> (r: &mut V)
        requires
            call_requires(old(self).init(), ()),
        ensures
            old(self).values().contains_key(tid) ==> *r == old(self).values()[tid],
            !old(self).values().contains_key(tid) ==> call_ensures(old(self).init(), (), *r),
            final(self).values() == old(self).values().insert(tid, *final(r)),
            final(self).init() == old(self).init(),
    {
        broadcast use vstd::std_specs::hash::group_hash_axioms;

        match self.state.entry(tid) {
            Entry::Occupied(o) => o.into_mut(),
            Entry::Vacant(v) => v.insert((self.value_init)()),
        }
    }
}

/// What a thread leaves in its value is what it finds there next time,
/// and the values of other threads stay as they were: after a thread's
/// value becomes `v`, a lookup for that thread gives `v` and a lookup for
/// any other thread gives what it gave before.
pub proof fn law_thread_values_kept<V>(values: Map<u64, V>, tid: u64, v: V, other: u64)
    ensures
        values.insert(tid, v).contains_key(tid),
        values.insert(tid, v)[tid] == v,
        other != tid ==> values.insert(tid, v).contains_key(other) == values.contains_key(other),
        other != tid && values.contains_key(other) ==> values.insert(tid, v)[other]
            == values[other],
{
}

} // verus!
