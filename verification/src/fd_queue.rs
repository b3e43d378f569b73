use vstd::prelude::*;
use std::collections::VecDeque;
use crate::interest::{Event, Interest};

verus! {

/// A token to remove an interest from [`FdQueue`]: the position of the key
/// in one of the two queues at the time it was pushed.
#[derive(Debug, Clone, Copy, PartialEq, Eq, Structural)]
pub struct RemoveToken {
    pub idx: usize,
    pub is_read: bool,
}

impl RemoveToken {
    /// Token for a position in the read queue.
    pub fn read(idx: usize) -> (r: Self)
        ensures
            r == (RemoveToken { idx, is_read: true }),
    {
        RemoveToken { idx, is_read: true }
    }

    /// Token for a position in the write queue.
    pub fn write(idx: usize) -> (r: Self)
        ensures
            r == (RemoveToken { idx, is_read: false }),
    {
        RemoveToken { idx, is_read: false }
    }
}

/// The abstract content of an [`FdQueue`]: the keys waiting for
/// readability and for writability, front first.
#[verifier::ext_equal]
pub struct QueueView {
    pub reads: Seq<usize>,
    pub writes: Seq<usize>,
}

/// Whether a key differs from `key`.
pub open spec fn other_than(key: usize) -> spec_fn(usize) -> bool {
    |k: usize| k != key
}

/// The keys equal to `key` taken out of `s`, the others in their order.
pub open spec fn without(s: Seq<usize>, key: usize) -> Seq<usize> {
    s.filter(other_than(key))
}

/// The queue with `key` queued behind the waiters of `interest`.
pub open spec fn pushed_back(v: QueueView, key: usize, interest: Interest) -> QueueView {
    match interest {
        Interest::Readable => QueueView { reads: v.reads.push(key), writes: v.writes },
        Interest::Writable => QueueView { reads: v.reads, writes: v.writes.push(key) },
    }
}

/// The token handed out when `key` is queued behind the waiters of `interest`.
pub open spec fn back_token(v: QueueView, interest: Interest) -> RemoveToken {
    match interest {
        Interest::Readable => RemoveToken { idx: v.reads.len() as usize, is_read: true },
        Interest::Writable => RemoveToken { idx: v.writes.len() as usize, is_read: false },
    }
}

/// The queue with `key` queued before the waiters of `interest`.
pub open spec fn pushed_front(v: QueueView, key: usize, interest: Interest) -> QueueView {
    match interest {
        Interest::Readable => QueueView { reads: seq![key] + v.reads, writes: v.writes },
        Interest::Writable => QueueView { reads: v.reads, writes: seq![key] + v.writes },
    }
}

/// The token handed out when a key is queued before the waiters of `interest`.
pub open spec fn front_token(interest: Interest) -> RemoveToken {
    RemoveToken { idx: 0, is_read: interest == Interest::Readable }
}

/// The queue without the key at the position the token names (unchanged
/// when there is no such position).
pub open spec fn token_removed(v: QueueView, t: RemoveToken) -> QueueView {
    if t.is_read {
        if t.idx < v.reads.len() {
            QueueView { reads: v.reads.remove(t.idx as int), writes: v.writes }
        } else {
            v
        }
    } else {
        if t.idx < v.writes.len() {
            QueueView { reads: v.reads, writes: v.writes.remove(t.idx as int) }
        } else {
            v
        }
    }
}

/// The key at the position the token names, if any.
pub open spec fn token_key(v: QueueView, t: RemoveToken) -> Option<usize> {
    if t.is_read {
        if t.idx < v.reads.len() { Some(v.reads[t.idx as int]) } else { None }
    } else {
        if t.idx < v.writes.len() { Some(v.writes[t.idx as int]) } else { None }
    }
}

/// The queue with every waiter of `key` taken out.
pub open spec fn key_removed(v: QueueView, key: usize) -> QueueView {
    QueueView { reads: without(v.reads, key), writes: without(v.writes, key) }
}

/// Whether no operation waits.
pub open spec fn queue_empty(v: QueueView) -> bool {
    v.reads.len() == 0 && v.writes.len() == 0
}

/// The event to register: each direction that has a waiter, keyed by the
/// front writer if any, else by the front reader.
pub open spec fn queue_event(v: QueueView) -> Event {
    Event {
        key: if v.writes.len() > 0 {
            v.writes[0]
        } else if v.reads.len() > 0 {
            v.reads[0]
        } else {
            0
        },
        readable: v.reads.len() > 0,
        writable: v.writes.len() > 0,
    }
}

/// The operation a reported event wakes: the front reader if the event is
/// readable and someone reads, else the front writer if it is writable.
pub open spec fn woken(v: QueueView, e: Event) -> Option<(usize, Interest)> {
    if e.readable && v.reads.len() > 0 {
        Some((v.reads[0], Interest::Readable))
    } else if e.writable && v.writes.len() > 0 {
        Some((v.writes[0], Interest::Writable))
    } else {
        None
    }
}

/// The queue after the woken operation left it.
pub open spec fn after_wake(v: QueueView, e: Event) -> QueueView {
    if e.readable && v.reads.len() > 0 {
        QueueView { reads: v.reads.drop_first(), writes: v.writes }
    } else if e.writable && v.writes.len() > 0 {
        QueueView { reads: v.reads, writes: v.writes.drop_first() }
    } else {
        v
    }
}

/// Both directions hold no more waiters than a `usize` counts, as every
/// queue's do.
pub open spec fn fits(v: QueueView) -> bool {
    v.reads.len() <= usize::MAX && v.writes.len() <= usize::MAX
}

/// The operations waiting on one file descriptor, in the order they were
/// queued, split by direction.
pub struct FdQueue {
    read_queue: VecDeque<usize>,
    write_queue: VecDeque<usize>,
}

impl View for FdQueue {
    type V = QueueView;

    closed spec fn view(&self) -> QueueView {
        QueueView { reads: self.read_queue@, writes: self.write_queue@ }
    }
}

impl FdQueue {
    /// Every queue's directions hold no more waiters than a `usize` counts.
    pub proof fn lemma_fits(&self)
        ensures
            fits(self@),
    {
        broadcast use vstd::std_specs::vecdeque::group_vec_dequeue_axioms;
        assert(vstd::std_specs::vecdeque::spec_vec_dequeue_len(&self.read_queue) == self.read_queue@.len());
        assert(vstd::std_specs::vecdeque::spec_vec_dequeue_len(&self.write_queue) == self.write_queue@.len());
    }

    /// An empty queue.
    pub fn new() -> (r: Self)
        ensures
            r@ == (QueueView { reads: Seq::empty(), writes: Seq::empty() }),
    {
        FdQueue { read_queue: VecDeque::new(), write_queue: VecDeque::new() }
    }

    /// Whether no operation waits on the fd.
    pub fn is_empty(&self) -> (r: bool)
        ensures
            r == queue_empty(self@),
    {
        self.read_queue.len() == 0 && self.write_queue.len() == 0
    }

    /// Remove the key at the position the token names, if there is one.
    pub fn remove_token(&mut self, token: RemoveToken) -> (r: Option<usize>)
        ensures
            final(self)@ == token_removed(old(self)@, token),
            r == token_key(old(self)@, token),
    {
        if token.is_read {
            self.read_queue.remove(token.idx)
        } else {
            self.write_queue.remove(token.idx)
        }
    }

    /// Queue `key` behind the waiters of the given direction.
    pub fn push_back_interest(&mut self, key: usize, interest: Interest) -> (r: RemoveToken)
        ensures
            final(self)@ == pushed_back(old(self)@, key, interest),
            r == back_token(old(self)@, interest),
    {
        match interest {
            Interest::Readable => {
                self.read_queue.push_back(key);
                RemoveToken::read(self.read_queue.len() - 1)
            },
            Interest::Writable => {
                self.write_queue.push_back(key);
                RemoveToken::write(self.write_queue.len() - 1)
            },
        }
    }

    /// Queue `key` before the waiters of the given direction.
    pub fn push_front_interest(&mut self, key: usize, interest: Interest) -> (r: RemoveToken)
        ensures
            final(self)@ == pushed_front(old(self)@, key, interest),
            r == front_token(interest),
    {
        let is_read = match interest {
            Interest::Readable => {
                self.read_queue.push_front(key);
                true
            },
            Interest::Writable => {
                self.write_queue.push_front(key);
                false
            },
        };
        RemoveToken { idx: 0, is_read }
    }

    /// Take every waiter with this key out of both directions.
    pub fn remove(&mut self, key: usize)
        ensures
            final(self)@ == key_removed(old(self)@, key),
    {
        let reads = Self::retain_other(&self.read_queue, key);
        let writes = Self::retain_other(&self.write_queue, key);
        self.read_queue = reads;
        self.write_queue = writes;
    }

    fn retain_other(q: &VecDeque<usize>, key: usize) -> (r: VecDeque<usize>)
        ensures
            r@ == without(q@, key),
    {
        let mut out: VecDeque<usize> = VecDeque::new();
        let mut i: usize = 0;
        while i < q.len()
            invariant
                i <= q@.len(),
                out@ == without(q@.take(i as int), key),
            decreases q@.len() - i,
        {
            let k = q[i];
            proof {
                assert(q@.take(i as int + 1) == q@.take(i as int).push(k));
                q@.take(i as int).lemma_filter_push(k, other_than(key));
            }
            if k != key {
                out.push_back(k);
            }
            i = i + 1;
        }
        proof {
            assert(q@.take(q@.len() as int) == q@);
        }
        out
    }

    /// The event to register for the fd.
    pub fn event(&self) -> (r: Event)
        ensures
            r == queue_event(self@),
    {
        let mut event = Event::none(0);
        if self.read_queue.len() > 0 {
            event.readable = true;
            event.key = self.read_queue[0];
        }
        if self.write_queue.len() > 0 {
            event.writable = true;
            event.key = self.write_queue[0];
        }
        event
    }

    /// Take the operation that a reported event wakes.
    pub fn pop_interest(&mut self, event: &Event) -> (r: Option<(usize, Interest)>)
        ensures
            r == woken(old(self)@, *event),
            final(self)@ == after_wake(old(self)@, *event),
    {
        if event.readable {
            if let Some(key) = self.read_queue.pop_front() {
                return Some((key, Interest::Readable));
            }
        }
        if event.writable {
            if let Some(key) = self.write_queue.pop_front() {
                return Some((key, Interest::Writable));
            }
        }
        None
    }
}

/// Pushing an interest to the back and then removing it by the token that
/// the push returned gives the key back and leaves the queue as it was.
pub proof fn law_push_back_then_remove_token(v: QueueView, key: usize, interest: Interest)
    requires
        fits(v),
    ensures
        token_removed(pushed_back(v, key, interest), back_token(v, interest)) == v,
        token_key(pushed_back(v, key, interest), back_token(v, interest)) == Some(key),
{
    assert(v.reads.push(key).remove(v.reads.len() as int) =~= v.reads);
    assert(v.writes.push(key).remove(v.writes.len() as int) =~= v.writes);
}

/// Pushing an interest to the front and then removing it by the token that
/// the push returned gives the key back and leaves the queue as it was.
pub proof fn law_push_front_then_remove_token(v: QueueView, key: usize, interest: Interest)
    ensures
        token_removed(pushed_front(v, key, interest), front_token(interest)) == v,
        token_key(pushed_front(v, key, interest), front_token(interest)) == Some(key),
{
    assert((seq![key] + v.reads).remove(0) =~= v.reads);
    assert((seq![key] + v.writes).remove(0) =~= v.writes);
}

/// Once a key is removed no waiter with it is left; removing it again
/// changes nothing; the waiters of other keys keep their order.
pub proof fn law_remove_key(v: QueueView, key: usize)
    ensures
        !key_removed(v, key).reads.contains(key),
        !key_removed(v, key).writes.contains(key),
        key_removed(key_removed(v, key), key) == key_removed(v, key),
{
    lemma_without_absent(v.reads, key);
    lemma_without_absent(v.writes, key);
    lemma_without_idempotent(v.reads, key);
    lemma_without_idempotent(v.writes, key);
}

proof fn lemma_without_absent(s: Seq<usize>, key: usize)
    ensures
        !without(s, key).contains(key),
{
    broadcast use vstd::seq_lib::group_filter_ensures;
    if without(s, key).contains(key) {
        let i = choose|i: int| 0 <= i < without(s, key).len() && without(s, key)[i] == key;
        s.lemma_filter_pred(other_than(key), i);
    }
}

proof fn lemma_without_idempotent(s: Seq<usize>, key: usize)
    ensures
        without(without(s, key), key) == without(s, key),
    decreases s.len(),
{
    if s.len() == 0 {
        assert(without(s, key) =~= s);
        assert(without(without(s, key), key) =~= without(s, key));
    } else {
        let init = s.drop_last();
        let x = s.last();
        assert(s == init.push(x));
        lemma_without_idempotent(init, key);
        init.lemma_filter_push(x, other_than(key));
        if x != key {
            without(init, key).lemma_filter_push(x, other_than(key));
        }
    }
}

/// Removing a key from a queue it was just pushed to the back of leaves
/// what removing it from the queue before the push leaves.
pub proof fn lemma_key_removed_push(v: QueueView, key: usize, interest: Interest)
    ensures
        key_removed(pushed_back(v, key, interest), key) == key_removed(v, key),
{
    v.reads.lemma_filter_push(key, other_than(key));
    v.writes.lemma_filter_push(key, other_than(key));
}

/// Removing a key that waits nowhere in a queue leaves the queue as it is.
pub proof fn lemma_key_removed_absent(v: QueueView, key: usize)
    requires
        !v.reads.contains(key),
        !v.writes.contains(key),
    ensures
        key_removed(v, key) == v,
{
    lemma_without_keeps(v.reads, key);
    lemma_without_keeps(v.writes, key);
}

proof fn lemma_without_keeps(s: Seq<usize>, key: usize)
    requires
        !s.contains(key),
    ensures
        without(s, key) == s,
    decreases s.len(),
{
    if s.len() == 0 {
        assert(without(s, key) =~= s);
    } else {
        let init = s.drop_last();
        let x = s.last();
        assert(s == init.push(x));
        assert(!init.contains(key)) by {
            if init.contains(key) {
                let i = choose|i: int| 0 <= i < init.len() && init[i] == key;
                assert(s[i] == key);
            }
        }
        lemma_without_keeps(init, key);
        init.lemma_filter_push(x, other_than(key));
    }
}

/// A queued operation is always registered: after a push the event covers
/// the pushed direction, and it names no direction only for an empty queue.
pub proof fn law_event_covers_waiters(v: QueueView, key: usize, interest: Interest)
    ensures
        interest == Interest::Readable ==> queue_event(pushed_back(v, key, interest)).readable,
        interest == Interest::Writable ==> queue_event(pushed_back(v, key, interest)).writable,
        interest == Interest::Readable ==> queue_event(pushed_front(v, key, interest)).readable,
        interest == Interest::Writable ==> queue_event(pushed_front(v, key, interest)).writable,
        (!queue_event(v).readable && !queue_event(v).writable) <==> queue_empty(v),
{
}

/// Waiters of one direction are woken first in, first out: an event wakes
/// the front waiter, and a key pushed to the back of an empty direction is
/// the one woken.
pub proof fn law_wake_in_order(v: QueueView, key: usize, interest: Interest)
    ensures
        interest == Interest::Readable && v.reads.len() == 0 ==> woken(
            pushed_back(v, key, interest),
            Event { key: 0, readable: true, writable: false },
        ) == Some((key, Interest::Readable)),
        interest == Interest::Writable && v.writes.len() == 0 ==> woken(
            pushed_back(v, key, interest),
            Event { key: 0, readable: false, writable: true },
        ) == Some((key, Interest::Writable)),
        v.reads.len() > 0 ==> woken(
            pushed_back(v, key, interest),
            Event { key: 0, readable: true, writable: false },
        ) == Some((v.reads[0], Interest::Readable)),
        v.writes.len() > 0 ==> woken(
            pushed_back(v, key, interest),
            Event { key: 0, readable: false, writable: true },
        ) == Some((v.writes[0], Interest::Writable)),
{
}

} // verus!
