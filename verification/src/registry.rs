use vstd::prelude::*;
use std::collections::HashMap;
use crate::fd_queue::{
    after_wake, back_token, front_token, key_removed, pushed_back, pushed_front, queue_empty,
    queue_event, token_removed, woken, law_push_back_then_remove_token, law_remove_key,
    lemma_key_removed_absent, lemma_key_removed_push, fits, FdQueue, QueueView, RemoveToken,
};
use crate::interest::{Event, Interest, RawFd, WaitArg};
use crate::io_result::IoError;

verus! {

broadcast use vstd::std_specs::hash::group_hash_axioms;

/// What the polling backend is asked to do after a queue was submitted to.
#[derive(Debug, Clone, Copy, PartialEq, Eq, Structural)]
pub struct SubmitPlan {
    /// The fd was not registered yet: add it (else modify its registration).
    pub need_add: bool,
    /// The event to register for the fd.
    pub event: Event,
    /// The token that removes the new interest again.
    pub token: RemoveToken,
}

/// How the registration of an fd is renewed after its queue changed.
#[derive(Debug, Clone, Copy, PartialEq, Eq, Structural)]
pub enum RenewAction {
    /// No operation waits any more: delete the fd from the poller.
    Delete,
    /// Re-register the fd for this event.
    Modify(Event),
}

/// What a push does next, once the registration of one of its fds came
/// back.
pub enum PushStep {
    /// Register the fd of the arg at this position.
    Submit(usize),
    /// Every fd is registered: the operation waits.
    Pending,
    /// A registration was refused: the operation was taken off every fd it
    /// named; renew these fds (`None` for one no longer registered) and
    /// answer with the error.
    Fail(IoError, Vec<Option<RenewAction>>),
}

/// The empty queue.
pub open spec fn empty_queue() -> QueueView {
    QueueView { reads: Seq::empty(), writes: Seq::empty() }
}

/// The queue registered for `fd`, or the empty queue.
pub open spec fn queue_at(m: Map<RawFd, QueueView>, fd: RawFd) -> QueueView {
    if m.contains_key(fd) {
        m[fd]
    } else {
        empty_queue()
    }
}

/// The registry with `q` stored for `fd`, or `fd` dropped when `q` is empty.
pub open spec fn store(m: Map<RawFd, QueueView>, fd: RawFd, q: QueueView) -> Map<RawFd, QueueView> {
    if queue_empty(q) {
        m.remove(fd)
    } else {
        m.insert(fd, q)
    }
}

/// The registry after `key` is queued behind the waiters of `arg`.
pub open spec fn submitted(m: Map<RawFd, QueueView>, key: usize, arg: WaitArg) -> Map<
    RawFd,
    QueueView,
> {
    m.insert(arg.fd, pushed_back(queue_at(m, arg.fd), key, arg.interest))
}

/// The registry after `key` is queued before the waiters of `arg`.
pub open spec fn submitted_front(m: Map<RawFd, QueueView>, key: usize, arg: WaitArg) -> Map<
    RawFd,
    QueueView,
> {
    m.insert(arg.fd, pushed_front(queue_at(m, arg.fd), key, arg.interest))
}

/// The registry after a failed submission is taken back by its token.
pub open spec fn rolled_back(m: Map<RawFd, QueueView>, fd: RawFd, t: RemoveToken) -> Map<
    RawFd,
    QueueView,
> {
    if m.contains_key(fd) {
        store(m, fd, token_removed(m[fd], t))
    } else {
        m
    }
}

/// The registry after every waiter of `key` on `fd` is taken out.
pub open spec fn one_removed(m: Map<RawFd, QueueView>, key: usize, fd: RawFd) -> Map<
    RawFd,
    QueueView,
> {
    if m.contains_key(fd) {
        store(m, fd, key_removed(m[fd], key))
    } else {
        m
    }
}

/// The renewal that an event calls for.
pub open spec fn renew_for(e: Event) -> RenewAction {
    if !e.readable && !e.writable {
        RenewAction::Delete
    } else {
        RenewAction::Modify(e)
    }
}

/// Every registered fd has an operation waiting on it.
pub open spec fn no_idle_fd(m: Map<RawFd, QueueView>) -> bool {
    forall|fd: RawFd| #[trigger] m.contains_key(fd) ==> !queue_empty(m[fd])
}

/// The fds that the polling backend watches, each with the operations that
/// wait on it.
pub struct Registry {
    queues: HashMap<RawFd, FdQueue>,
}

impl View for Registry {
    type V = Map<RawFd, QueueView>;

    closed spec fn view(&self) -> Map<RawFd, QueueView> {
        self.queues@.map_values(|q: FdQueue| q@)
    }
}

impl Registry {
    /// Every registered queue holds no more waiters than a `usize` counts,
    /// so the laws that need it hold of every registry.
    pub proof fn lemma_fits(&self)
        ensures
            forall|fd: RawFd| #[trigger] self@.contains_key(fd) ==> fits(self@[fd]),
    {
        assert forall|fd: RawFd| #[trigger] self@.contains_key(fd) implies fits(self@[fd]) by {
            let q = self.queues@[fd];
            q.lemma_fits();
        }
    }

    /// An empty registry.
    pub fn new() -> (r: Self)
        ensures
            r@ == Map::<RawFd, QueueView>::empty(),
    {
        let r = Registry { queues: HashMap::new() };
        assert(r@ =~= Map::<RawFd, QueueView>::empty());
        r
    }

    /// Whether `fd` is registered.
    pub fn contains(&self, fd: RawFd) -> (r: bool)
        ensures
            r == self@.contains_key(fd),
    {
        self.queues.contains_key(&fd)
    }

    fn take_queue(&mut self, fd: RawFd) -> (r: FdQueue)
        ensures
            r@ == queue_at(old(self)@, fd),
            final(self)@ == old(self)@.remove(fd),
    {
        let ghost before = self@;
        let q = self.queues.remove(&fd);
        assert(self@ =~= before.remove(fd));
        match q {
            Some(q) => {
                assert(before.contains_key(fd) && before[fd] == q@);
                q
            },
            None => FdQueue::new(),
        }
    }

    fn put_queue(&mut self, fd: RawFd, q: FdQueue)
        requires
            !old(self)@.contains_key(fd),
        ensures
            final(self)@ == old(self)@.insert(fd, q@),
    {
        let ghost before = self@;
        let ghost qv = q@;
        self.queues.insert(fd, q);
        assert(self@ =~= before.insert(fd, qv));
    }

    /// Queue `key` behind the operations waiting on `arg`, and say how the
    /// fd is to be registered with the poller.
    pub fn submit(&mut self, key: usize, arg: WaitArg) -> (r: SubmitPlan)
        ensures
            final(self)@ == submitted(old(self)@, key, arg),
            r.need_add == !old(self)@.contains_key(arg.fd),
            r.token == back_token(queue_at(old(self)@, arg.fd), arg.interest),
            r.event == queue_event(pushed_back(queue_at(old(self)@, arg.fd), key, arg.interest)),
    {
        let need_add = !self.queues.contains_key(&arg.fd);
        let mut queue = self.take_queue(arg.fd);
        let token = queue.push_back_interest(key, arg.interest);
        let event = queue.event();
        self.put_queue(arg.fd, queue);
        proof {
            assert(final(self)@ =~= submitted(old(self)@, key, arg));
        }
        SubmitPlan { need_add, event, token }
    }

    /// Take back a submission that the poller refused, by its token; the fd
    /// is dropped when nothing waits on it any more.
    pub fn rollback_submit(&mut self, fd: RawFd, token: RemoveToken)
        ensures
            final(self)@ == rolled_back(old(self)@, fd, token),
    {
        if self.queues.contains_key(&fd) {
            let mut queue = self.take_queue(fd);
            queue.remove_token(token);
            if !queue.is_empty() {
                self.put_queue(fd, queue);
            }
            proof {
                assert(final(self)@ =~= rolled_back(old(self)@, fd, token));
            }
        }
    }

    /// Queue `key` before the operations waiting on `arg` (an operation
    /// that was woken but is not done yet goes back to the front).
    pub fn submit_front(&mut self, key: usize, arg: WaitArg) -> (r: SubmitPlan)
        ensures
            final(self)@ == submitted_front(old(self)@, key, arg),
            r.need_add == !old(self)@.contains_key(arg.fd),
            r.token == front_token(arg.interest),
            r.event == queue_event(pushed_front(queue_at(old(self)@, arg.fd), key, arg.interest)),
    {
        let need_add = !self.queues.contains_key(&arg.fd);
        let mut queue = self.take_queue(arg.fd);
        let token = queue.push_front_interest(key, arg.interest);
        let event = queue.event();
        self.put_queue(arg.fd, queue);
        proof {
            assert(final(self)@ =~= submitted_front(old(self)@, key, arg));
        }
        SubmitPlan { need_add, event, token }
    }

    /// Take every waiter of `key` off `fd`; the fd is dropped when nothing
    /// waits on it any more. Gives the renewal to perform, or `None` when
    /// the fd is not registered.
    pub fn remove_one(&mut self, key: usize, fd: RawFd) -> (r: Option<RenewAction>)
        ensures
            final(self)@ == one_removed(old(self)@, key, fd),
            old(self)@.contains_key(fd) ==> r == Some(
                renew_for(queue_event(key_removed(old(self)@[fd], key))),
            ),
            !old(self)@.contains_key(fd) ==> r is None,
    {
        if !self.queues.contains_key(&fd) {
            return None;
        }
        let mut queue = self.take_queue(fd);
        queue.remove(key);
        let event = queue.event();
        if !queue.is_empty() {
            self.put_queue(fd, queue);
        }
        proof {
            assert(final(self)@ =~= one_removed(old(self)@, key, fd));
        }
        Some(Self::renew_action(event))
    }

    /// The renewal that an event calls for.
    pub fn renew_action(event: Event) -> (r: RenewAction)
        ensures
            r == renew_for(event),
    {
        if !event.readable && !event.writable {
            RenewAction::Delete
        } else {
            RenewAction::Modify(event)
        }
    }

    /// The event to register for a registered fd.
    pub fn event_of(&self, fd: RawFd) -> (r: Event)
        requires
            self@.contains_key(fd),
        ensures
            r == queue_event(self@[fd]),
    {
        let q = self.queues.get(&fd);
        match q {
            Some(q) => q.event(),
            None => Event::none(0),
        }
    }

    /// The renewal due for a registered fd, from the operations still
    /// waiting on it.
    pub fn renew_plan(&self, fd: RawFd) -> (r: RenewAction)
        requires
            self@.contains_key(fd),
        ensures
            r == renew_for(queue_event(self@[fd])),
    {
        Self::renew_action(self.event_of(fd))
    }

    /// Forget `fd`, once the poller no longer watches it.
    pub fn forget(&mut self, fd: RawFd)
        ensures
            final(self)@ == old(self)@.remove(fd),
    {
        let _ = self.take_queue(fd);
    }

    /// Take `key` off the fd of every arg, in order, as when a push that the
    /// poller refused is undone. Gives, for each arg, the renewal due for
    /// its fd, or `None` when the fd was not registered by then.
    pub fn remove_key_from(&mut self, key: usize, args: &Vec<WaitArg>) -> (r: Vec<
        Option<RenewAction>,
    >)
        ensures
            final(self)@ == removed_first(old(self)@, key, args@, args@.len()),
            r@.len() == args@.len(),
            forall|i: int|
                0 <= i < args@.len() ==> #[trigger] r@[i] == removal_renewal(
                    removed_first(old(self)@, key, args@, i as nat),
                    key,
                    args@[i].fd,
                ),
    {
        let ghost before = self@;
        let mut r: Vec<Option<RenewAction>> = Vec::new();
        let mut i: usize = 0;
        while i < args.len()
            invariant
                i <= args@.len(),
                self@ == removed_first(before, key, args@, i as nat),
                r@.len() == i,
                forall|j: int|
                    0 <= j < i ==> #[trigger] r@[j] == removal_renewal(
                        removed_first(before, key, args@, j as nat),
                        key,
                        args@[j].fd,
                    ),
            decreases args@.len() - i,
        {
            let action = self.remove_one(key, args[i].fd);
            r.push(action);
            i = i + 1;
        }
        r
    }

    /// The first step of a push that waits on `args`.
    pub fn push_start(args: &Vec<WaitArg>) -> (r: PushStep)
        ensures
            args@.len() > 0 ==> (r matches PushStep::Submit(i) && i == 0),
            args@.len() == 0 ==> r is Pending,
    {
        if args.len() > 0 {
            PushStep::Submit(0)
        } else {
            PushStep::Pending
        }
    }

    /// The next step of a push of `key` on `args`, once the registration of
    /// `args[i]` came back as `res` (a refused one already rolled back):
    /// on a refusal, take the key off every fd the push named and fail
    /// with the error; else register the next fd, or wait when none is
    /// left.
    pub fn push_next(&mut self, key: usize, args: &Vec<WaitArg>, i: usize, res: Result<(), IoError>) -> (r: PushStep)
        requires
            i < args@.len(),
        ensures
            res matches Err(e) ==> final(self)@ == removed_first(old(self)@, key, args@, args@.len())
                && (r matches PushStep::Fail(e2, renewals) && e2 == e && renewals@.len()
                == args@.len() && forall|j: int|
                0 <= j < args@.len() ==> #[trigger] renewals@[j] == removal_renewal(
                    removed_first(old(self)@, key, args@, j as nat),
                    key,
                    args@[j].fd,
                )),
            res is Ok ==> final(self)@ == old(self)@,
            res is Ok && i + 1 < args@.len() ==> (r matches PushStep::Submit(n) && n == i + 1),
            res is Ok && i + 1 == args@.len() ==> r is Pending,
    {
        match res {
            Err(e) => {
                let renewals = self.remove_key_from(key, args);
                PushStep::Fail(e, renewals)
            },
            Ok(()) => {
                if i < args.len() - 1 {
                    PushStep::Submit(i + 1)
                } else {
                    PushStep::Pending
                }
            },
        }
    }

    /// Take the operation that an event reported on a registered fd wakes.
    pub fn pop_interest(&mut self, fd: RawFd, event: &Event) -> (r: Option<(usize, Interest)>)
        requires
            old(self)@.contains_key(fd),
        ensures
            r == woken(old(self)@[fd], *event),
            final(self)@ == old(self)@.insert(fd, after_wake(old(self)@[fd], *event)),
    {
        let mut queue = self.take_queue(fd);
        let r = queue.pop_interest(event);
        self.put_queue(fd, queue);
        proof {
            assert(final(self)@ =~= old(self)@.insert(fd, after_wake(old(self)@[fd], *event)));
        }
        r
    }
}

/// A submission that the poller refused and that is rolled back by its
/// token leaves the registry as it was before the submission.
pub proof fn law_submit_then_rollback(m: Map<RawFd, QueueView>, key: usize, arg: WaitArg)
    requires
        no_idle_fd(m),
        fits(queue_at(m, arg.fd)),
    ensures
        rolled_back(
            submitted(m, key, arg),
            arg.fd,
            back_token(queue_at(m, arg.fd), arg.interest),
        ) == m,
{
    let q = queue_at(m, arg.fd);
    law_push_back_then_remove_token(q, key, arg.interest);
    let s = submitted(m, key, arg);
    assert(s.contains_key(arg.fd));
    assert(s[arg.fd] == pushed_back(q, key, arg.interest));
    if m.contains_key(arg.fd) {
        assert(!queue_empty(q));
        assert(rolled_back(s, arg.fd, back_token(q, arg.interest)) =~= m);
    } else {
        assert(queue_empty(q));
        assert(rolled_back(s, arg.fd, back_token(q, arg.interest)) =~= m);
    }
}

/// Submitting, rolling back and removing keep every registered fd busy: no
/// fd stays registered without an operation waiting on it.
pub proof fn law_no_idle_fd_kept(
    m: Map<RawFd, QueueView>,
    key: usize,
    arg: WaitArg,
    fd: RawFd,
    t: RemoveToken,
)
    requires
        no_idle_fd(m),
    ensures
        no_idle_fd(submitted(m, key, arg)),
        no_idle_fd(submitted_front(m, key, arg)),
        no_idle_fd(rolled_back(m, fd, t)),
        no_idle_fd(one_removed(m, key, fd)),
{
    assert forall|f: RawFd| #[trigger] submitted(m, key, arg).contains_key(f) implies !queue_empty(
        submitted(m, key, arg)[f],
    ) by {
        if f != arg.fd {
            assert(m.contains_key(f));
        }
    }
    assert forall|f: RawFd| #[trigger] submitted_front(m, key, arg).contains_key(f) implies !queue_empty(
        submitted_front(m, key, arg)[f],
    ) by {
        if f != arg.fd {
            assert(m.contains_key(f));
        }
    }
    assert forall|f: RawFd| #[trigger] rolled_back(m, fd, t).contains_key(f) implies !queue_empty(
        rolled_back(m, fd, t)[f],
    ) by {
        if f != fd {
            assert(m.contains_key(f));
        }
    }
    assert forall|f: RawFd| #[trigger] one_removed(m, key, fd).contains_key(f) implies !queue_empty(
        one_removed(m, key, fd)[f],
    ) by {
        if f != fd {
            assert(m.contains_key(f));
        }
    }
}

/// Removing the waiters of a key on one fd touches no other fd, and the
/// renewal it asks for deletes the fd exactly when nothing waits on it.
pub proof fn law_remove_one_is_local(m: Map<RawFd, QueueView>, key: usize, fd: RawFd, other: RawFd)
    requires
        other != fd,
    ensures
        one_removed(m, key, fd).contains_key(other) == m.contains_key(other),
        m.contains_key(other) ==> one_removed(m, key, fd)[other] == m[other],
        m.contains_key(fd) ==> (renew_for(queue_event(key_removed(m[fd], key)))
            == RenewAction::Delete <==> !one_removed(m, key, fd).contains_key(fd)),
{
}

/// The renewal that taking `key` off `fd` calls for, or `None` when `fd`
/// is not registered.
pub open spec fn removal_renewal(m: Map<RawFd, QueueView>, key: usize, fd: RawFd) -> Option<
    RenewAction,
> {
    if m.contains_key(fd) {
        Some(renew_for(queue_event(key_removed(m[fd], key))))
    } else {
        None
    }
}

/// The registry after `key` is queued behind the waiters of the first `n`
/// args, in order.
pub open spec fn submitted_first(m: Map<RawFd, QueueView>, key: usize, args: Seq<WaitArg>, n: nat) -> Map<
    RawFd,
    QueueView,
>
    decreases n,
{
    if n == 0 {
        m
    } else {
        submitted(submitted_first(m, key, args, (n - 1) as nat), key, args[n - 1])
    }
}

/// The registry after `key` is taken off the fds of the first `n` args, in
/// order.
pub open spec fn removed_first(m: Map<RawFd, QueueView>, key: usize, args: Seq<WaitArg>, n: nat) -> Map<
    RawFd,
    QueueView,
>
    decreases n,
{
    if n == 0 {
        m
    } else {
        one_removed(removed_first(m, key, args, (n - 1) as nat), key, args[n - 1].fd)
    }
}

/// Whether one of the first `n` args names `fd`.
pub open spec fn names_fd(args: Seq<WaitArg>, n: nat, fd: RawFd) -> bool {
    exists|j: int| 0 <= j < n && #[trigger] args[j].fd == fd
}

/// Whether `key` waits on no fd.
pub open spec fn key_free(m: Map<RawFd, QueueView>, key: usize) -> bool {
    forall|fd: RawFd|
        #[trigger] m.contains_key(fd) ==> !m[fd].reads.contains(key) && !m[fd].writes.contains(key)
}

proof fn lemma_submitted_first(m: Map<RawFd, QueueView>, key: usize, args: Seq<WaitArg>, n: nat)
    requires
        n <= args.len(),
        no_idle_fd(m),
    ensures
        no_idle_fd(submitted_first(m, key, args, n)),
        forall|fd: RawFd| #[trigger]
            names_fd(args, n, fd) ==> submitted_first(m, key, args, n).contains_key(fd),
        forall|fd: RawFd|
            #[trigger] submitted_first(m, key, args, n).contains_key(fd) ==> key_removed(
                submitted_first(m, key, args, n)[fd],
                key,
            ) == key_removed(queue_at(m, fd), key),
        forall|fd: RawFd|
            !names_fd(args, n, fd) ==> (#[trigger] submitted_first(m, key, args, n).contains_key(fd)
                == m.contains_key(fd)) && (m.contains_key(fd) ==> submitted_first(
                m,
                key,
                args,
                n,
            )[fd] == m[fd]),
    decreases n,
{
    if n > 0 {
        let n1 = (n - 1) as nat;
        lemma_submitted_first(m, key, args, n1);
        let x = submitted_first(m, key, args, n1);
        let a = args[n - 1];
        let y = submitted_first(m, key, args, n);
        assert(y == submitted(x, key, a));
        law_no_idle_fd_kept(x, key, a, a.fd, RemoveToken { idx: 0, is_read: true });
        lemma_key_removed_push(queue_at(x, a.fd), key, a.interest);
        assert forall|fd: RawFd| #[trigger] names_fd(args, n, fd) implies y.contains_key(fd) by {
            if fd != a.fd {
                let j = choose|j: int| 0 <= j < n && #[trigger] args[j].fd == fd;
                assert(args[j].fd == fd && j < n1);
                assert(names_fd(args, n1, fd));
            }
        }
        assert forall|fd: RawFd| #[trigger] y.contains_key(fd) implies key_removed(y[fd], key)
            == key_removed(queue_at(m, fd), key) by {
            if fd == a.fd {
                if !x.contains_key(fd) {
                    if m.contains_key(fd) {
                        assert(names_fd(args, n1, fd));
                    }
                }
            }
        }
        assert forall|fd: RawFd| !names_fd(args, n, fd) implies (#[trigger] y.contains_key(fd)
            == m.contains_key(fd)) && (m.contains_key(fd) ==> y[fd] == m[fd]) by {
            assert(fd != a.fd) by {
                if fd == a.fd {
                    assert(args[n - 1].fd == fd);
                }
            }
            assert(!names_fd(args, n1, fd)) by {
                if names_fd(args, n1, fd) {
                    let j = choose|j: int| 0 <= j < n1 && #[trigger] args[j].fd == fd;
                    assert(args[j].fd == fd && j < n);
                }
            }
        }
    }
}

proof fn lemma_removed_first(y: Map<RawFd, QueueView>, key: usize, args: Seq<WaitArg>, n: nat)
    requires
        n <= args.len(),
    ensures
        forall|fd: RawFd|
            names_fd(args, n, fd) ==> (#[trigger] removed_first(y, key, args, n).contains_key(fd)
                <==> y.contains_key(fd) && !queue_empty(key_removed(y[fd], key))),
        forall|fd: RawFd|
            names_fd(args, n, fd) && #[trigger] removed_first(y, key, args, n).contains_key(fd)
                ==> removed_first(y, key, args, n)[fd] == key_removed(y[fd], key),
        forall|fd: RawFd|
            !names_fd(args, n, fd) ==> (#[trigger] removed_first(y, key, args, n).contains_key(fd)
                == y.contains_key(fd)) && (y.contains_key(fd) ==> removed_first(
                y,
                key,
                args,
                n,
            )[fd] == y[fd]),
    decreases n,
{
    if n > 0 {
        let n1 = (n - 1) as nat;
        lemma_removed_first(y, key, args, n1);
        let z = removed_first(y, key, args, n1);
        let f = args[n - 1].fd;
        let w = removed_first(y, key, args, n);
        assert(w == one_removed(z, key, f));
        assert forall|fd: RawFd| names_fd(args, n, fd) implies (#[trigger] w.contains_key(fd)
            <==> y.contains_key(fd) && !queue_empty(key_removed(y[fd], key))) && (w.contains_key(fd)
            ==> w[fd] == key_removed(y[fd], key)) by {
            if fd == f {
                if names_fd(args, n1, fd) {
                    if z.contains_key(fd) {
                        law_remove_key(y[fd], key);
                    }
                }
            } else {
                let j = choose|j: int| 0 <= j < n && #[trigger] args[j].fd == fd;
                assert(args[j].fd == fd && j < n1);
                assert(names_fd(args, n1, fd));
            }
        }
        assert forall|fd: RawFd| !names_fd(args, n, fd) implies (#[trigger] w.contains_key(fd)
            == y.contains_key(fd)) && (y.contains_key(fd) ==> w[fd] == y[fd]) by {
            assert(fd != f) by {
                if fd == f {
                    assert(args[n - 1].fd == fd);
                }
            }
            assert(!names_fd(args, n1, fd)) by {
                if names_fd(args, n1, fd) {
                    let j = choose|j: int| 0 <= j < n1 && #[trigger] args[j].fd == fd;
                    assert(args[j].fd == fd && j < n);
                }
            }
        }
    }
}

/// A push that the poller refused part-way leaves the registry as it was
/// before the push once it is undone: the refused submission is rolled
/// back by its token and the key is taken off every fd the push named,
/// which also undoes the submissions accepted before the refusal.
pub proof fn law_refused_push_restores(
    m: Map<RawFd, QueueView>,
    key: usize,
    args: Seq<WaitArg>,
    k: nat,
)
    requires
        no_idle_fd(m),
        key_free(m, key),
        k < args.len(),
        fits(queue_at(submitted_first(m, key, args, k), args[k as int].fd)),
    ensures
        removed_first(
            rolled_back(
                submitted(submitted_first(m, key, args, k), key, args[k as int]),
                args[k as int].fd,
                back_token(
                    queue_at(submitted_first(m, key, args, k), args[k as int].fd),
                    args[k as int].interest,
                ),
            ),
            key,
            args,
            args.len(),
        ) == m,
        forall|fd: RawFd|
            !waits_on(
                removed_first(submitted_first(m, key, args, k), key, args, args.len()),
                key,
                fd,
            ),
{
    let x = submitted_first(m, key, args, k);
    lemma_submitted_first(m, key, args, k);
    law_submit_then_rollback(x, key, args[k as int]);
    let n = args.len();
    lemma_removed_first(x, key, args, n);
    let z = removed_first(x, key, args, n);
    assert forall|fd: RawFd| m.contains_key(fd) implies key_removed(m[fd], key) == m[fd] by {
        lemma_key_removed_absent(m[fd], key);
    }
    assert forall|fd: RawFd| #[trigger] z.contains_key(fd) == m.contains_key(fd) && (m.contains_key(
        fd,
    ) ==> z[fd] == m[fd]) by {
        if names_fd(args, n, fd) {
            if !names_fd(args, k, fd) {
                if x.contains_key(fd) {
                    assert(x[fd] == m[fd]);
                }
            }
        } else {
            assert(!names_fd(args, k, fd)) by {
                if names_fd(args, k, fd) {
                    let j = choose|j: int| 0 <= j < k && #[trigger] args[j].fd == fd;
                    assert(args[j].fd == fd && j < n);
                }
            }
        }
    }
    assert(z =~= m);
    assert forall|fd: RawFd| !waits_on(z, key, fd) by {}
}

/// Whether `key` waits on `fd`, in either direction.
pub open spec fn waits_on(m: Map<RawFd, QueueView>, key: usize, fd: RawFd) -> bool {
    m.contains_key(fd) && (m[fd].reads.contains(key) || m[fd].writes.contains(key))
}

/// An operation taken off an fd (cancelled, or rolled back after a failed
/// submission) no longer waits on it, and taking it off again changes
/// nothing.
pub proof fn law_removed_key_gone(m: Map<RawFd, QueueView>, key: usize, fd: RawFd)
    ensures
        !waits_on(one_removed(m, key, fd), key, fd),
        one_removed(one_removed(m, key, fd), key, fd) == one_removed(m, key, fd),
{
    if m.contains_key(fd) {
        law_remove_key(m[fd], key);
        let q = key_removed(m[fd], key);
        if !queue_empty(q) {
            assert(one_removed(m, key, fd)[fd] == q);
            assert(one_removed(one_removed(m, key, fd), key, fd) =~= one_removed(m, key, fd));
        } else {
            assert(one_removed(one_removed(m, key, fd), key, fd) =~= one_removed(m, key, fd));
        }
    }
}

} // verus!
