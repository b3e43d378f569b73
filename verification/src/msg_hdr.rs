//! The message headers that socket operations hand to `sendmsg` and
//! `recvmsg`, described with plain values.

use vstd::prelude::*;
use crate::buf_result::VectoredBuf;
use crate::op::managed::{RecvFromManaged, RecvMsgManaged};
use crate::op::managed_multi::{RecvMsgMulti, RecvMsgMultiImpl, RecvMsgMultiInner};
use crate::op::socket::{
    RecvFromHeader, RecvMsg, RecvVectored, SendMsg, SendToHeader, SendVectored,
};
use crate::recv_msg::NAME_LEN;
use crate::sys_slice::SysSlice;

verus! {

/// The fields of a `msghdr`: where the address is and how long it is,
/// where the array of `iovec`s is and how many there are, and where the
/// ancillary data is and how long it is. Addresses are integers, 0 for
/// none.
#[derive(Debug, Clone, Copy, PartialEq, Eq, Structural)]
pub struct MsgHdr {
    pub name: usize,
    pub namelen: u32,
    pub iov: usize,
    pub iovlen: usize,
    pub control: usize,
    pub controllen: usize,
}

impl MsgHdr {
    /// A header with every field zero.
    pub fn zeroed() -> (r: Self)
        ensures
            r == (MsgHdr { name: 0, namelen: 0, iov: 0, iovlen: 0, control: 0, controllen: 0 }),
    {
        MsgHdr { name: 0, namelen: 0, iov: 0, iovlen: 0, control: 0, controllen: 0 }
    }
}

impl Default for MsgHdr {
    fn default() -> (r: Self)
        ensures
            r == (MsgHdr { name: 0, namelen: 0, iov: 0, iovlen: 0, control: 0, controllen: 0 }),
    {
        Self::zeroed()
    }
}

impl<T: VectoredBuf, S> RecvVectored<T, S> {
    /// The header of a vectored receive: only the buffers, one `iovec` per
    /// buffer, described at `iov`.
    pub fn init_control(&self, iov: usize, iovlen: usize) -> (r: MsgHdr)
        requires
            iovlen == self.buffer.capacities().len(),
        ensures
            r == (MsgHdr { name: 0, namelen: 0, iov, iovlen, control: 0, controllen: 0 }),
    {
        MsgHdr { name: 0, namelen: 0, iov, iovlen, control: 0, controllen: 0 }
    }
}

impl<T: VectoredBuf, S> SendVectored<T, S> {
    /// The header of a vectored send: only the buffers, one `iovec` per
    /// buffer, described at `iov`.
    pub fn init_control(&self, iov: usize, iovlen: usize) -> (r: MsgHdr)
        requires
            iovlen == self.buffer.init_lens().len(),
        ensures
            r == (MsgHdr { name: 0, namelen: 0, iov, iovlen, control: 0, controllen: 0 }),
    {
        MsgHdr { name: 0, namelen: 0, iov, iovlen, control: 0, controllen: 0 }
    }
}

impl<S> SendToHeader<S> {
    /// The header of a send to the operation's address, whose bytes are at
    /// `name`.
    pub fn create_control(&self, name: usize, iov: usize, iovlen: usize) -> (r: MsgHdr)
        requires
            self.addr@.len() <= u32::MAX,
        ensures
            r == (MsgHdr {
                name,
                namelen: self.addr@.len() as u32,
                iov,
                iovlen,
                control: 0,
                controllen: 0,
            }),
    {
        MsgHdr { name, namelen: self.addr.len() as u32, iov, iovlen, control: 0, controllen: 0 }
    }
}

impl<S> RecvFromHeader<S> {
    /// The header of a receive that reports its source: the whole address
    /// storage at `name` may be filled.
    pub fn create_control(&self, name: usize, iov: usize, iovlen: usize) -> (r: MsgHdr)
        ensures
            r == (MsgHdr { name, namelen: NAME_LEN as u32, iov, iovlen, control: 0, controllen: 0 }),
    {
        MsgHdr { name, namelen: NAME_LEN as u32, iov, iovlen, control: 0, controllen: 0 }
    }
}

impl<T, C, S> SendMsg<T, C, S> {
    /// The header of a message send: the address, if the operation has
    /// one, with its bytes at `name`; the buffers; and the initialized
    /// ancillary data in `control`.
    pub fn init_control(&self, name: usize, iov: usize, iovlen: usize, control: SysSlice) -> (r:
        MsgHdr)
        requires
            self.addr matches Some(a) ==> a@.len() <= u32::MAX,
        ensures
            r.name == (if self.addr is Some {
                name
            } else {
                0
            }),
            r.namelen == (match self.addr {
                Some(a) => a@.len() as u32,
                None => 0,
            }),
            r.iov == iov,
            r.iovlen == iovlen,
            r.control == control@.0,
            r.controllen == control@.1,
    {
        let (name, namelen) = match &self.addr {
            Some(a) => (name, a.len() as u32),
            None => (0, 0),
        };
        MsgHdr { name, namelen, iov, iovlen, control: control.ptr(), controllen: control.len() }
    }
}

impl<T, C, S> RecvMsg<T, C, S> {
    /// The header of a message receive: the whole address storage at
    /// `name`, the buffers, and the whole room of the control buffer in
    /// `control`.
    pub fn init_control(&self, name: usize, iov: usize, iovlen: usize, control: SysSlice) -> (r:
        MsgHdr)
        ensures
            r == (MsgHdr {
                name,
                namelen: NAME_LEN as u32,
                iov,
                iovlen,
                control: control@.0,
                controllen: control@.1,
            }),
    {
        MsgHdr {
            name,
            namelen: NAME_LEN as u32,
            iov,
            iovlen,
            control: control.ptr(),
            controllen: control.len(),
        }
    }
}

impl<S> RecvFromManaged<S> {
    /// The header of a receive into a buffer the kernel selects: the whole
    /// address storage at `name` and one `iovec` at `iov`, which asks for
    /// the operation's length at no address.
    pub fn init(&self, name: usize, iov: usize) -> (r: (MsgHdr, SysSlice))
        ensures
            r.0 == (MsgHdr { name, namelen: NAME_LEN as u32, iov, iovlen: 1, control: 0, controllen: 0 }),
            r.1@ == (0usize, self.buffer_len),
    {
        (
            MsgHdr { name, namelen: NAME_LEN as u32, iov, iovlen: 1, control: 0, controllen: 0 },
            SysSlice::from_parts(0, self.buffer_len),
        )
    }
}

impl<C, S> RecvMsgManaged<C, S> {
    /// The header of a message receive into a buffer the kernel selects,
    /// with the room of the control buffer in `control`.
    pub fn init(&self, name: usize, iov: usize, control: SysSlice) -> (r: (MsgHdr, SysSlice))
        ensures
            r.0 == (MsgHdr {
                name,
                namelen: NAME_LEN as u32,
                iov,
                iovlen: 1,
                control: control@.0,
                controllen: control@.1,
            }),
            r.1@ == (0usize, self.op.buffer_len),
    {
        let (hdr, iovec) = self.op.init(name, iov);
        (MsgHdr { control: control.ptr(), controllen: control.len(), ..hdr }, iovec)
    }
}

impl<S, E> RecvMsgMultiImpl<S, E> {
    /// The header of a multishot message receive: only the lengths the
    /// kernel lays out in each buffer, the address room and the ancillary
    /// room.
    pub fn init(&self) -> (r: MsgHdr)
        ensures
            r == (MsgHdr {
                name: 0,
                namelen: NAME_LEN as u32,
                iov: 0,
                iovlen: 0,
                control: 0,
                controllen: self.control_len,
            }),
    {
        MsgHdr {
            name: 0,
            namelen: NAME_LEN as u32,
            iov: 0,
            iovlen: 0,
            control: 0,
            controllen: self.control_len,
        }
    }
}

impl<S, E> RecvMsgMulti<S, E> {
    /// The header of the receive, in either form: for one message at a
    /// time, the address storage at `name`, one `iovec` at `iov` and the
    /// control buffer's room in `control`.
    pub fn init(&self, name: usize, iov: usize, control: SysSlice) -> (r: (MsgHdr, SysSlice))
        ensures
            self.inner matches RecvMsgMultiInner::Impl(i) ==> r.0 == (MsgHdr {
                name: 0,
                namelen: NAME_LEN as u32,
                iov: 0,
                iovlen: 0,
                control: 0,
                controllen: i.control_len,
            }) && r.1@ == (0usize, 0usize),
            self.inner matches RecvMsgMultiInner::Fallback(f) ==> r.0 == (MsgHdr {
                name,
                namelen: NAME_LEN as u32,
                iov,
                iovlen: 1,
                control: control@.0,
                controllen: control@.1,
            }) && r.1@ == (0usize, f.op.op.buffer_len),
    {
        match &self.inner {
            RecvMsgMultiInner::Impl(i) => (i.init(), SysSlice::null()),
            RecvMsgMultiInner::Fallback(f) => f.op.init(name, iov, control),
        }
    }
}

} // verus!
