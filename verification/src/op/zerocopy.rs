use vstd::prelude::*;
use crate::buf_result::BufResult;
use crate::io_result::IoError;
use crate::op::socket::{cmsg_aligned, Send, SendMsg, SendTo, SendToVectored, SendVectored};
use crate::sys_slice::SysSlice;

verus! {

/// Zerocopy [`Send`]: the send and its last completion not yet taken.
pub struct SendZc<T, S, E> {
    pub op: Send<T, S>,
    pub res: Option<BufResult<usize, E>>,
}

impl<T, S, E> SendZc<T, S, E> {
    /// Create [`SendZc`].
    pub fn new(fd: S, buffer: T, flags: i32) -> (r: Self)
        ensures
            r.op.fd == fd,
            r.op.buffer == buffer,
            r.op.flags == flags,
            r.res is None,
    {
        SendZc { op: Send::new(fd, buffer, flags), res: None }
    }

    /// The buffer.
    pub fn into_inner(self) -> (r: T)
        ensures
            r == self.op.buffer,
    {
        self.op.into_inner()
    }

    /// Keep a completion, in place of any earlier one.
    pub fn push_multishot(&mut self, res: Result<usize, IoError>, extra: E)
        ensures
            final(self).res == Some(BufResult(res, extra)),
            final(self).op == old(self).op,
    {
        self.res = Some(BufResult(res, extra));
    }

    /// Take the kept completion.
    pub fn pop_multishot(&mut self) -> (r: Option<BufResult<usize, E>>)
        ensures
            r == old(self).res,
            final(self).res is None,
            final(self).op == old(self).op,
    {
        self.res.take()
    }
}

/// Zerocopy [`SendTo`].
pub struct SendToZc<T, S, E> {
    pub op: SendTo<T, S>,
    pub res: Option<BufResult<usize, E>>,
}

impl<T, S, E> SendToZc<T, S, E> {
    /// Create [`SendToZc`].
    pub fn new(fd: S, buffer: T, addr: Vec<u8>, flags: i32) -> (r: Self)
        ensures
            r.op.header.fd == fd,
            r.op.header.addr@ == addr@,
            r.op.header.flags == flags,
            r.op.buffer == buffer,
            r.res is None,
    {
        SendToZc { op: SendTo::new(fd, buffer, addr, flags), res: None }
    }

    /// The buffer.
    pub fn into_inner(self) -> (r: T)
        ensures
            r == self.op.buffer,
    {
        self.op.into_inner()
    }

    /// Keep a completion, in place of any earlier one.
    pub fn push_multishot(&mut self, res: Result<usize, IoError>, extra: E)
        ensures
            final(self).res == Some(BufResult(res, extra)),
    {
        self.res = Some(BufResult(res, extra));
    }

    /// Take the kept completion.
    pub fn pop_multishot(&mut self) -> (r: Option<BufResult<usize, E>>)
        ensures
            r == old(self).res,
            final(self).res is None,
    {
        self.res.take()
    }
}

/// Zerocopy [`SendVectored`].
pub struct SendVectoredZc<T, S, E> {
    pub op: SendVectored<T, S>,
    pub res: Option<BufResult<usize, E>>,
}

impl<T, S, E> SendVectoredZc<T, S, E> {
    /// Create [`SendVectoredZc`].
    pub fn new(fd: S, buffer: T, flags: i32) -> (r: Self)
        ensures
            r.op.fd == fd,
            r.op.buffer == buffer,
            r.op.flags == flags,
            r.res is None,
    {
        SendVectoredZc { op: SendVectored::new(fd, buffer, flags), res: None }
    }

    /// The buffer.
    pub fn into_inner(self) -> (r: T)
        ensures
            r == self.op.buffer,
    {
        self.op.into_inner()
    }

    /// Keep a completion, in place of any earlier one.
    pub fn push_multishot(&mut self, res: Result<usize, IoError>, extra: E)
        ensures
            final(self).res == Some(BufResult(res, extra)),
            final(self).op == old(self).op,
    {
        self.res = Some(BufResult(res, extra));
    }

    /// Take the kept completion.
    pub fn pop_multishot(&mut self) -> (r: Option<BufResult<usize, E>>)
        ensures
            r == old(self).res,
            final(self).res is None,
            final(self).op == old(self).op,
    {
        self.res.take()
    }
}

/// Zerocopy [`SendToVectored`].
pub struct SendToVectoredZc<T, S, E> {
    pub op: SendToVectored<T, S>,
    pub res: Option<BufResult<usize, E>>,
}

impl<T, S, E> SendToVectoredZc<T, S, E> {
    /// Create [`SendToVectoredZc`].
    pub fn new(fd: S, buffer: T, addr: Vec<u8>, flags: i32) -> (r: Self)
        ensures
            r.op.header.fd == fd,
            r.op.header.addr@ == addr@,
            r.op.header.flags == flags,
            r.op.buffer == buffer,
            r.res is None,
    {
        SendToVectoredZc { op: SendToVectored::new(fd, buffer, addr, flags), res: None }
    }

    /// The buffer.
    pub fn into_inner(self) -> (r: T)
        ensures
            r == self.op.buffer,
    {
        self.op.into_inner()
    }

    /// Keep a completion, in place of any earlier one.
    pub fn push_multishot(&mut self, res: Result<usize, IoError>, extra: E)
        ensures
            final(self).res == Some(BufResult(res, extra)),
    {
        self.res = Some(BufResult(res, extra));
    }

    /// Take the kept completion.
    pub fn pop_multishot(&mut self) -> (r: Option<BufResult<usize, E>>)
        ensures
            r == old(self).res,
            final(self).res is None,
    {
        self.res.take()
    }
}

/// Zerocopy [`SendMsg`].
pub struct SendMsgZc<T, C, S, E> {
    pub op: SendMsg<T, C, S>,
    pub res: Option<BufResult<usize, E>>,
}

impl<T, C, S, E> SendMsgZc<T, C, S, E> {
    /// Create [`SendMsgZc`]. `control_at` says where the control message
    /// buffer lies; unless it is empty, it must be aligned for a control
    /// message header.
    pub fn new(
        fd: S,
        buffer: T,
        control: C,
        control_at: SysSlice,
        addr: Option<Vec<u8>>,
        flags: i32,
    ) -> (r: Self)
        requires
            control_at@.1 == 0 || cmsg_aligned(control_at@.0),
        ensures
            r.op.fd == fd,
            r.op.buffer == buffer,
            r.op.control == control,
            r.op.addr == addr,
            r.op.flags == flags,
            r.res is None,
    {
        SendMsgZc { op: SendMsg::new(fd, buffer, control, control_at, addr, flags), res: None }
    }

    /// The buffer and the control buffer.
    pub fn into_inner(self) -> (r: (T, C))
        ensures
            r == (self.op.buffer, self.op.control),
    {
        self.op.into_inner()
    }

    /// Keep a completion, in place of any earlier one.
    pub fn push_multishot(&mut self, res: Result<usize, IoError>, extra: E)
        ensures
            final(self).res == Some(BufResult(res, extra)),
            final(self).op == old(self).op,
    {
        self.res = Some(BufResult(res, extra));
    }

    /// Take the kept completion.
    pub fn pop_multishot(&mut self) -> (r: Option<BufResult<usize, E>>)
        ensures
            r == old(self).res,
            final(self).res is None,
            final(self).op == old(self).op,
    {
        self.res.take()
    }
}

} // verus!
