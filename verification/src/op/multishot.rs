use vstd::prelude::*;
use std::collections::VecDeque;
use crate::buf_result::BufResult;
use crate::interest::{AsRawFd, RawFd};
use crate::sqe::Sqe;
use crate::op::socket::SOCK_CLOEXEC;
use crate::io_result::IoError;
use crate::op::socket::{is_zeroed_storage, Accept};
use crate::recv_msg::NAME_LEN;

verus! {

/// One connection accepted by a multishot accept, with the completion's
/// extra data.
pub struct AcceptMultishotResult<E> {
    pub res: Result<RawFd, IoError>,
    pub extra: E,
}

/// The accepted socket that a completion result names.
pub open spec fn accepted_of(res: Result<usize, IoError>) -> Result<RawFd, IoError> {
    match res {
        Ok(fd) => Ok(fd as RawFd),
        Err(e) => Err(e),
    }
}

/// The completion result that an accepted socket gives back.
pub open spec fn completion_of(res: Result<RawFd, IoError>) -> Result<usize, IoError> {
    match res {
        Ok(fd) => Ok(fd as usize),
        Err(e) => Err(e),
    }
}

impl<E> AcceptMultishotResult<E> {
    /// Take a completion: its result is the fd of the accepted socket.
    pub fn new(res: Result<usize, IoError>, extra: E) -> (r: Self)
        requires
            res is Ok ==> res.unwrap() <= i32::MAX,
        ensures
            r.res == accepted_of(res),
            r.extra == extra,
    {
        let res = match res {
            Ok(fd) => Ok(fd as RawFd),
            Err(e) => Err(e),
        };
        AcceptMultishotResult { res, extra }
    }

    /// Give the completion back, the accepted socket as its fd.
    pub fn into_result(self) -> (r: BufResult<usize, E>)
        ensures
            r.0 == completion_of(self.res),
            r.1 == self.extra,
    {
        let res = match self.res {
            Ok(fd) => Ok(fd as usize),
            Err(e) => Err(e),
        };
        BufResult(res, self.extra)
    }
}

/// Accept multiple connections.
pub struct AcceptMulti<S, E> {
    op: Accept<S>,
    multishots: VecDeque<AcceptMultishotResult<E>>,
}

impl<S, E> AcceptMulti<S, E> {
    /// The accepted connections not taken yet, first accepted first.
    pub closed spec fn pending(&self) -> Seq<AcceptMultishotResult<E>> {
        self.multishots@
    }

    /// The accept that is repeated.
    pub closed spec fn accept(&self) -> Accept<S> {
        self.op
    }

    /// Create [`AcceptMulti`].
    pub fn new(fd: S) -> (r: Self)
        ensures
            r.accept().fd == fd,
            r.accept().accepted_fd is None,
            is_zeroed_storage(r.accept().buffer@),
            r.accept().addr_len == NAME_LEN,
            r.pending() == Seq::<AcceptMultishotResult<E>>::empty(),
    {
        AcceptMulti { op: Accept::new(fd), multishots: VecDeque::new() }
    }

    /// Keep the socket that the first accept returned.
    pub fn set_result(&mut self, res: &Result<usize, IoError>)
        requires
            res is Ok ==> res.unwrap() <= i32::MAX,
        ensures
            res is Ok ==> final(self).accept().accepted_fd == Some(res.unwrap() as RawFd),
            res is Err ==> final(self).accept().accepted_fd == old(self).accept().accepted_fd,
            final(self).accept().buffer@ == old(self).accept().buffer@,
            final(self).accept().addr_len == old(self).accept().addr_len,
            final(self).pending() == old(self).pending(),
    {
        self.op.set_result(res);
    }

    /// Queue a connection that the kernel accepted.
    pub fn push_multishot(&mut self, res: Result<usize, IoError>, extra: E)
        requires
            res is Ok ==> res.unwrap() <= i32::MAX,
        ensures
            final(self).pending().len() == old(self).pending().len() + 1,
            final(self).pending().drop_last() == old(self).pending(),
            final(self).pending().last().res == accepted_of(res),
            final(self).pending().last().extra == extra,
    {
        let r = AcceptMultishotResult::new(res, extra);
        self.multishots.push_back(r);
        assert(final(self).pending().drop_last() =~= old(self).pending());
    }

    /// Take the first accepted connection not taken yet.
    pub fn pop_multishot(&mut self) -> (r: Option<BufResult<usize, E>>)
        ensures
            old(self).pending().len() == 0 ==> r is None && final(self).pending() == old(
                self,
            ).pending(),
            old(self).pending().len() > 0 ==> (r matches Some(b) && b.0 == completion_of(
                old(self).pending()[0].res,
            ) && b.1 == old(self).pending()[0].extra) && final(self).pending() == old(
                self,
            ).pending().drop_first(),
    {
        match self.multishots.pop_front() {
            Some(res) => Some(res.into_result()),
            None => None,
        }
    }

    /// The accepted socket of the first accept.
    pub fn into_inner(self) -> (r: RawFd)
        requires
            self.accept().accepted_fd is Some,
            self.accept().addr_len <= self.accept().buffer@.len(),
        ensures
            r == self.accept().accepted_fd.unwrap(),
    {
        self.op.into_inner().0
    }
}

impl<S: AsRawFd, E> AcceptMulti<S, E> {
    /// Accept connections repeatedly, each close-on-exec.
    pub fn create_entry(&self) -> (r: Sqe)
        ensures
            r == (Sqe::AcceptMulti { fd: self.accept().fd.raw_fd(), flags: SOCK_CLOEXEC }),
    {
        Sqe::AcceptMulti { fd: self.op.fd.as_raw_fd(), flags: SOCK_CLOEXEC }
    }

    /// Where repeated accepts are not available: one accept, the peer's
    /// address written at `addr` and its length at `addr_len`.
    pub fn create_entry_fallback(&self, addr: usize, addr_len: usize) -> (r: Sqe)
        ensures
            r == (Sqe::Accept { fd: self.accept().fd.raw_fd(), addr, addr_len, flags: SOCK_CLOEXEC }),
    {
        self.op.create_entry(addr, addr_len)
    }
}

/// Accepted connections are taken in the order they were queued: after
/// two are queued behind the pending ones, the first taken is the oldest
/// pending one, or the first of the two when none was pending.
pub proof fn law_multishots_in_order<E>(
    pending: Seq<AcceptMultishotResult<E>>,
    a: AcceptMultishotResult<E>,
    b: AcceptMultishotResult<E>,
)
    ensures
        pending.len() == 0 ==> pending.push(a).push(b)[0] == a,
        pending.len() == 0 ==> pending.push(a).push(b).drop_first()[0] == b,
        pending.len() > 0 ==> pending.push(a).push(b)[0] == pending[0],
{
}

/// A completion that is queued and taken back gives the kernel's result
/// back unchanged.
pub proof fn law_accept_result_round_trip(res: Result<usize, IoError>)
    requires
        res is Ok ==> res.unwrap() <= i32::MAX,
    ensures
        completion_of(accepted_of(res)) == res,
{
}

} // verus!
