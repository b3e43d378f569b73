//! The requests that operations put on io_uring's submission queue,
//! described with plain values: fds, the addresses of buffers and control
//! blocks as integers, lengths, offsets and flags. A builder setting that
//! an operation leaves at its default is `None`.

use vstd::prelude::*;
use crate::interest::{AsRawFd, Interest, RawFd};
use crate::op::fs::{CloseFile, FileStat, PathStat, Splice, Sync};
use crate::op::asyncify::{Asyncify, AsyncifyFd, AsyncifyFd2};
use crate::op::general::{entry_len, entry_len_of, Read, ReadAt, Write, WriteAt};
use crate::op::managed::{ReadManaged, ReadManagedAt, RecvFromManaged, RecvManaged, RecvMsgManaged};
use crate::op::managed_multi::{RecvFromMulti, RecvMsgMulti, RecvMsgMultiFallback, RecvMsgMultiImpl, RecvMsgMultiInner};
use crate::op::zerocopy::{SendMsgZc, SendToVectoredZc, SendToZc, SendVectoredZc, SendZc};
use crate::op::socket::{
    Accept, Bind, CloseSocket, Connect, CreateSocket, Listen, Recv, RecvFrom, RecvFromHeader,
    RecvFromVectored, RecvMsg, RecvVectored, Send, SendMsg, SendTo, SendToVectored,
    SendVectored, Shutdown, ShutdownSocket, SHUT_RD, SHUT_RDWR, SHUT_WR, SOCK_CLOEXEC,
};
use crate::op::unix::{
    CreateDir, HardLink, OpenFile, Pipe, PollOnce, ReadVectored, ReadVectoredAt, Rename, Symlink,
    TruncateFile, Unlink, WriteVectored, WriteVectoredAt, AT_REMOVEDIR, O_CLOEXEC, POLLIN, POLLOUT,
};
use crate::stat::{statx_flags, statx_mask, AT_EMPTY_PATH, AT_SYMLINK_NOFOLLOW};
use crate::sys_slice::SysSlice;

verus! {

/// A submission queue entry, or a request to run the operation on a
/// thread instead.
#[derive(Debug, Clone, Copy, PartialEq, Eq)]
pub enum Sqe {
    /// Run the operation on a thread.
    Blocking,
    /// `read` into `buf`, or into a buffer the kernel selects from
    /// `buf_group`.
    Read { fd: RawFd, buf: usize, len: u32, offset: Option<u64>, buf_group: Option<u16> },
    /// `readv` into the `len` buffers described at `iovecs`.
    Readv { fd: RawFd, iovecs: usize, len: u32, offset: Option<u64> },
    /// `write` from `buf`.
    Write { fd: RawFd, buf: usize, len: u32, offset: Option<u64> },
    /// `writev` from the `len` buffers described at `iovecs`.
    Writev { fd: RawFd, iovecs: usize, len: u32, offset: Option<u64> },
    /// Poll an fd once for `flags`.
    PollAdd { fd: RawFd, flags: u32 },
    /// Create a pipe, writing its two fds at `fds`.
    Pipe { fds: usize, flags: u32 },
    /// `openat`.
    OpenAt { dirfd: RawFd, path: usize, flags: i32, mode: u32 },
    /// `close`.
    Close { fd: RawFd },
    /// `ftruncate`.
    Ftruncate { fd: RawFd, len: u64 },
    /// `statx` into the buffer at `statxbuf`.
    Statx { dirfd: RawFd, path: usize, statxbuf: usize, flags: i32, mask: u32 },
    /// `fsync`, or `fdatasync` when only data is asked for.
    Fsync { fd: RawFd, datasync: bool },
    /// `unlinkat`.
    UnlinkAt { dirfd: RawFd, path: usize, flags: i32 },
    /// `mkdirat`.
    MkDirAt { dirfd: RawFd, path: usize, mode: u32 },
    /// `renameat`.
    RenameAt { old_dirfd: RawFd, old_path: usize, new_dirfd: RawFd, new_path: usize },
    /// `symlinkat`: a link at `target` relative to `dirfd` that points to
    /// `source`.
    SymlinkAt { dirfd: RawFd, source: usize, target: usize },
    /// `linkat`.
    LinkAt { source_dirfd: RawFd, source: usize, target_dirfd: RawFd, target: usize },
    /// `splice`; a negative offset uses the current position.
    Splice { fd_in: RawFd, off_in: i64, fd_out: RawFd, off_out: i64, len: u32, flags: u32 },
    /// `socket`.
    Socket { domain: i32, socket_type: i32, protocol: i32 },
    /// `bind`.
    Bind { fd: RawFd, addr: usize, addr_len: u32 },
    /// `listen`.
    Listen { fd: RawFd, backlog: i32 },
    /// `shutdown`.
    Shutdown { fd: RawFd, how: i32 },
    /// `accept4`, writing the peer's address at `addr` and its length at
    /// `addr_len`.
    Accept { fd: RawFd, addr: usize, addr_len: usize, flags: i32 },
    /// Accept connections until cancelled.
    AcceptMulti { fd: RawFd, flags: i32 },
    /// `connect`.
    Connect { fd: RawFd, addr: usize, addr_len: u32 },
    /// `send`.
    Send { fd: RawFd, buf: usize, len: u32, flags: i32 },
    /// `send` without copying the data.
    SendZc { fd: RawFd, buf: usize, len: u32, flags: i32 },
    /// `sendmsg` with the message header at `msg`.
    SendMsg { fd: RawFd, msg: usize, flags: u32 },
    /// `sendmsg` without copying the data.
    SendMsgZc { fd: RawFd, msg: usize, flags: u32 },
    /// `recv` into `buf`, or into a buffer the kernel selects from
    /// `buf_group`.
    Recv { fd: RawFd, buf: usize, len: u32, flags: i32, buf_group: Option<u16> },
    /// `recvmsg` with the message header at `msg`, into a buffer the kernel
    /// selects from `buf_group` if there is one.
    RecvMsg { fd: RawFd, msg: usize, flags: u32, buf_group: Option<u16> },
    /// Read repeatedly into buffers the kernel selects from `buf_group`.
    ReadMulti { fd: RawFd, len: u32, buf_group: u16, offset: u64 },
    /// Receive repeatedly into buffers the kernel selects from `buf_group`.
    RecvMulti { fd: RawFd, buf_group: u16, flags: i32, len: u32 },
    /// Receive messages repeatedly into buffers the kernel selects from
    /// `buf_group`.
    RecvMsgMulti { fd: RawFd, msg: usize, buf_group: u16, flags: u32 },
}

/// The `poll` events for an interest.
pub open spec fn poll_events(interest: Interest) -> i16 {
    if interest == Interest::Readable {
        POLLIN
    } else {
        POLLOUT
    }
}

/// The `how` argument of `shutdown` for the directions to shut down.
pub open spec fn shutdown_how(how: Shutdown) -> i32 {
    match how {
        Shutdown::Read => SHUT_RD,
        Shutdown::Write => SHUT_WR,
        Shutdown::Both => SHUT_RDWR,
    }
}

impl<T, S: AsRawFd> Read<T, S> {
    /// Read into `slice` at the position the builder defaults to.
    pub fn create_entry(&self, slice: SysSlice) -> (r: Sqe)
        ensures
            r == (Sqe::Read {
                fd: self.fd.raw_fd(),
                buf: slice@.0,
                len: entry_len_of(slice@.1),
                offset: None,
                buf_group: None,
            }),
    {
        Sqe::Read {
            fd: self.fd.as_raw_fd(),
            buf: slice.ptr(),
            len: entry_len(slice.len()),
            offset: None,
            buf_group: None,
        }
    }
}

impl<T, S: AsRawFd> ReadAt<T, S> {
    /// Read into `slice` at the operation's offset.
    pub fn create_entry(&self, slice: SysSlice) -> (r: Sqe)
        ensures
            r == (Sqe::Read {
                fd: self.fd.raw_fd(),
                buf: slice@.0,
                len: entry_len_of(slice@.1),
                offset: Some(self.offset),
                buf_group: None,
            }),
    {
        Sqe::Read {
            fd: self.fd.as_raw_fd(),
            buf: slice.ptr(),
            len: entry_len(slice.len()),
            offset: Some(self.offset),
            buf_group: None,
        }
    }
}

impl<T, S: AsRawFd> Write<T, S> {
    /// Write the bytes of `slice` at the position the builder defaults to.
    pub fn create_entry(&self, slice: SysSlice) -> (r: Sqe)
        ensures
            r == (Sqe::Write {
                fd: self.fd.raw_fd(),
                buf: slice@.0,
                len: entry_len_of(slice@.1),
                offset: None,
            }),
    {
        Sqe::Write {
            fd: self.fd.as_raw_fd(),
            buf: slice.ptr(),
            len: entry_len(slice.len()),
            offset: None,
        }
    }
}

impl<T, S: AsRawFd> WriteAt<T, S> {
    /// Write the bytes of `slice` at the operation's offset.
    pub fn create_entry(&self, slice: SysSlice) -> (r: Sqe)
        ensures
            r == (Sqe::Write {
                fd: self.fd.raw_fd(),
                buf: slice@.0,
                len: entry_len_of(slice@.1),
                offset: Some(self.offset),
            }),
    {
        Sqe::Write {
            fd: self.fd.as_raw_fd(),
            buf: slice.ptr(),
            len: entry_len(slice.len()),
            offset: Some(self.offset),
        }
    }
}

impl<T, S: AsRawFd> ReadVectored<T, S> {
    /// Read into the `count` buffers described at `iovecs`.
    pub fn create_entry(&self, iovecs: usize, count: usize) -> (r: Sqe)
        ensures
            r == (Sqe::Readv {
                fd: self.fd.raw_fd(),
                iovecs,
                len: entry_len_of(count),
                offset: None,
            }),
    {
        Sqe::Readv { fd: self.fd.as_raw_fd(), iovecs, len: entry_len(count), offset: None }
    }
}

impl<T, S: AsRawFd> ReadVectoredAt<T, S> {
    /// Read into the `count` buffers described at `iovecs`, at the
    /// operation's offset.
    pub fn create_entry(&self, iovecs: usize, count: usize) -> (r: Sqe)
        ensures
            r == (Sqe::Readv {
                fd: self.fd.raw_fd(),
                iovecs,
                len: entry_len_of(count),
                offset: Some(self.offset),
            }),
    {
        Sqe::Readv {
            fd: self.fd.as_raw_fd(),
            iovecs,
            len: entry_len(count),
            offset: Some(self.offset),
        }
    }
}

impl<T, S: AsRawFd> WriteVectored<T, S> {
    /// Write from the `count` buffers described at `iovecs`.
    pub fn create_entry(&self, iovecs: usize, count: usize) -> (r: Sqe)
        ensures
            r == (Sqe::Writev {
                fd: self.fd.raw_fd(),
                iovecs,
                len: entry_len_of(count),
                offset: None,
            }),
    {
        Sqe::Writev { fd: self.fd.as_raw_fd(), iovecs, len: entry_len(count), offset: None }
    }
}

impl<T, S: AsRawFd> WriteVectoredAt<T, S> {
    /// Write from the `count` buffers described at `iovecs`, at the
    /// operation's offset.
    pub fn create_entry(&self, iovecs: usize, count: usize) -> (r: Sqe)
        ensures
            r == (Sqe::Writev {
                fd: self.fd.raw_fd(),
                iovecs,
                len: entry_len_of(count),
                offset: Some(self.offset),
            }),
    {
        Sqe::Writev {
            fd: self.fd.as_raw_fd(),
            iovecs,
            len: entry_len(count),
            offset: Some(self.offset),
        }
    }
}

impl<S: AsRawFd> PollOnce<S> {
    /// Poll the fd once for the operation's interest.
    pub fn create_entry(&self) -> (r: Sqe)
        ensures
            r == (Sqe::PollAdd { fd: self.fd.raw_fd(), flags: poll_events(self.interest) as u32 }),
    {
        let flags = self.poll_flags();
        Sqe::PollAdd { fd: self.fd.as_raw_fd(), flags: flags as u32 }
    }
}

impl Pipe {
    /// Create a close-on-exec pipe, its fds written at `fds`.
    pub fn create_entry(&self, fds: usize) -> (r: Sqe)
        ensures
            r == (Sqe::Pipe { fds, flags: O_CLOEXEC as u32 }),
    {
        Sqe::Pipe { fds, flags: O_CLOEXEC as u32 }
    }
}

impl<S: AsRawFd> OpenFile<S> {
    /// Open the path at `path`, close-on-exec.
    pub fn create_entry(&self, path: usize) -> (r: Sqe)
        ensures
            r == (Sqe::OpenAt {
                dirfd: self.dirfd.raw_fd(),
                path,
                flags: self.flags | O_CLOEXEC,
                mode: self.mode,
            }),
    {
        Sqe::OpenAt { dirfd: self.dirfd.as_raw_fd(), path, flags: self.open_flags(), mode: self.mode }
    }
}

impl CloseFile {
    /// Close the fd.
    pub fn create_entry(&self) -> (r: Sqe)
        ensures
            r == (Sqe::Close { fd: self.fd }),
    {
        Sqe::Close { fd: self.fd }
    }
}

impl<S: AsRawFd> TruncateFile<S> {
    /// Set the file's size.
    pub fn create_entry(&self) -> (r: Sqe)
        ensures
            r == (Sqe::Ftruncate { fd: self.fd.raw_fd(), len: self.size }),
    {
        Sqe::Ftruncate { fd: self.fd.as_raw_fd(), len: self.size }
    }
}

impl<S: AsRawFd> FileStat<S> {
    /// Read the metadata of the fd itself: the empty path at `empty_name`,
    /// the result written at `statxbuf`.
    pub fn create_entry(&self, empty_name: usize, statxbuf: usize) -> (r: Sqe)
        ensures
            r == (Sqe::Statx {
                dirfd: self.fd.raw_fd(),
                path: empty_name,
                statxbuf,
                flags: AT_EMPTY_PATH as i32,
                mask: 0x3fff,
            }),
    {
        Sqe::Statx {
            dirfd: self.fd.as_raw_fd(),
            path: empty_name,
            statxbuf,
            flags: AT_EMPTY_PATH as i32,
            mask: statx_mask(),
        }
    }
}

impl<S: AsRawFd> PathStat<S> {
    /// Read the metadata of the path at `path`, the result written at
    /// `statxbuf`; a final symbolic link is followed only if asked to.
    pub fn create_entry(&self, path: usize, statxbuf: usize) -> (r: Sqe)
        ensures
            r == (Sqe::Statx {
                dirfd: self.dirfd.raw_fd(),
                path,
                statxbuf,
                flags: (if self.follow_symlink {
                    AT_EMPTY_PATH
                } else {
                    AT_EMPTY_PATH | AT_SYMLINK_NOFOLLOW
                }) as i32,
                mask: 0x3fff,
            }),
    {
        let flags = statx_flags(self.follow_symlink);
        Sqe::Statx {
            dirfd: self.dirfd.as_raw_fd(),
            path,
            statxbuf,
            flags: flags as i32,
            mask: statx_mask(),
        }
    }
}

impl<S: AsRawFd> Sync<S> {
    /// Sync the file, only its data if asked.
    pub fn create_entry(&self) -> (r: Sqe)
        ensures
            r == (Sqe::Fsync { fd: self.fd.raw_fd(), datasync: self.datasync }),
    {
        Sqe::Fsync { fd: self.fd.as_raw_fd(), datasync: self.datasync }
    }
}

impl<S: AsRawFd> Unlink<S> {
    /// Remove the file or directory at `path`.
    pub fn create_entry(&self, path: usize) -> (r: Sqe)
        ensures
            r == (Sqe::UnlinkAt {
                dirfd: self.dirfd.raw_fd(),
                path,
                flags: if self.dir {
                    AT_REMOVEDIR
                } else {
                    0
                },
            }),
    {
        Sqe::UnlinkAt { dirfd: self.dirfd.as_raw_fd(), path, flags: self.unlink_flags() }
    }
}

impl<S: AsRawFd> CreateDir<S> {
    /// Create the directory at `path`.
    pub fn create_entry(&self, path: usize) -> (r: Sqe)
        ensures
            r == (Sqe::MkDirAt { dirfd: self.dirfd.raw_fd(), path, mode: self.mode }),
    {
        Sqe::MkDirAt { dirfd: self.dirfd.as_raw_fd(), path, mode: self.mode }
    }
}

impl<S1: AsRawFd, S2: AsRawFd> Rename<S1, S2> {
    /// Rename the path at `old_path` to the path at `new_path`.
    pub fn create_entry(&self, old_path: usize, new_path: usize) -> (r: Sqe)
        ensures
            r == (Sqe::RenameAt {
                old_dirfd: self.old_dirfd.raw_fd(),
                old_path,
                new_dirfd: self.new_dirfd.raw_fd(),
                new_path,
            }),
    {
        Sqe::RenameAt {
            old_dirfd: self.old_dirfd.as_raw_fd(),
            old_path,
            new_dirfd: self.new_dirfd.as_raw_fd(),
            new_path,
        }
    }
}

impl<S: AsRawFd> Symlink<S> {
    /// Link the path at `target` to the path at `source`.
    pub fn create_entry(&self, source: usize, target: usize) -> (r: Sqe)
        ensures
            r == (Sqe::SymlinkAt { dirfd: self.dirfd.raw_fd(), source, target }),
    {
        Sqe::SymlinkAt { dirfd: self.dirfd.as_raw_fd(), source, target }
    }
}

impl<S1: AsRawFd, S2: AsRawFd> HardLink<S1, S2> {
    /// Make the path at `target` a hard link to the path at `source`.
    pub fn create_entry(&self, source: usize, target: usize) -> (r: Sqe)
        ensures
            r == (Sqe::LinkAt {
                source_dirfd: self.source_dirfd.raw_fd(),
                source,
                target_dirfd: self.target_dirfd.raw_fd(),
                target,
            }),
    {
        Sqe::LinkAt {
            source_dirfd: self.source_dirfd.as_raw_fd(),
            source,
            target_dirfd: self.target_dirfd.as_raw_fd(),
            target,
        }
    }
}

impl<S1: AsRawFd, S2: AsRawFd> Splice<S1, S2> {
    /// Move the operation's length between its two fds, at their offsets.
    pub fn create_entry(&self) -> (r: Sqe)
        ensures
            r == (Sqe::Splice {
                fd_in: self.fd_in.raw_fd(),
                off_in: self.offset_in,
                fd_out: self.fd_out.raw_fd(),
                off_out: self.offset_out,
                len: entry_len_of(self.len),
                flags: self.flags,
            }),
    {
        Sqe::Splice {
            fd_in: self.fd_in.as_raw_fd(),
            off_in: self.offset_in,
            fd_out: self.fd_out.as_raw_fd(),
            off_out: self.offset_out,
            len: entry_len(self.len),
            flags: self.flags,
        }
    }
}

impl CreateSocket {
    /// Create the socket, close-on-exec; no protocol stands for 0.
    pub fn create_entry(&self) -> (r: Sqe)
        ensures
            r == (Sqe::Socket {
                domain: self.domain,
                socket_type: self.socket_type | SOCK_CLOEXEC,
                protocol: match self.protocol {
                    Some(p) => p as i32,
                    None => 0,
                },
            }),
    {
        let protocol = match self.protocol {
            Some(p) => p as i32,
            None => 0,
        };
        Sqe::Socket { domain: self.domain, socket_type: self.socket_type | SOCK_CLOEXEC, protocol }
    }
}

impl<S: AsRawFd> Bind<S> {
    /// Bind to the address, whose bytes are at `addr`.
    pub fn create_entry(&self, addr: usize) -> (r: Sqe)
        requires
            self.addr@.len() <= u32::MAX,
        ensures
            r == (Sqe::Bind { fd: self.fd.raw_fd(), addr, addr_len: self.addr@.len() as u32 }),
    {
        Sqe::Bind { fd: self.fd.as_raw_fd(), addr, addr_len: self.addr.len() as u32 }
    }
}

impl<S: AsRawFd> Listen<S> {
    /// Listen with the operation's backlog.
    pub fn create_entry(&self) -> (r: Sqe)
        ensures
            r == (Sqe::Listen { fd: self.fd.raw_fd(), backlog: self.backlog }),
    {
        Sqe::Listen { fd: self.fd.as_raw_fd(), backlog: self.backlog }
    }
}

impl<S: AsRawFd> ShutdownSocket<S> {
    /// Shut down the operation's directions.
    pub fn create_entry(&self) -> (r: Sqe)
        ensures
            r == (Sqe::Shutdown { fd: self.fd.raw_fd(), how: shutdown_how(self.how) }),
    {
        Sqe::Shutdown { fd: self.fd.as_raw_fd(), how: self.how() }
    }
}

impl CloseSocket {
    /// Close the socket.
    pub fn create_entry(&self) -> (r: Sqe)
        ensures
            r == (Sqe::Close { fd: self.fd }),
    {
        Sqe::Close { fd: self.fd }
    }
}

impl<S: AsRawFd> Accept<S> {
    /// Accept a connection, close-on-exec, the peer's address written at
    /// `addr` and its length at `addr_len`.
    pub fn create_entry(&self, addr: usize, addr_len: usize) -> (r: Sqe)
        ensures
            r == (Sqe::Accept { fd: self.fd.raw_fd(), addr, addr_len, flags: SOCK_CLOEXEC }),
    {
        Sqe::Accept { fd: self.fd.as_raw_fd(), addr, addr_len, flags: SOCK_CLOEXEC }
    }
}

impl<S: AsRawFd> Connect<S> {
    /// Connect to the address, whose bytes are at `addr`.
    pub fn create_entry(&self, addr: usize) -> (r: Sqe)
        requires
            self.addr@.len() <= u32::MAX,
        ensures
            r == (Sqe::Connect { fd: self.fd.raw_fd(), addr, addr_len: self.addr@.len() as u32 }),
    {
        Sqe::Connect { fd: self.fd.as_raw_fd(), addr, addr_len: self.addr.len() as u32 }
    }
}

impl<T, S: AsRawFd> Send<T, S> {
    /// Send the bytes of `slice`.
    pub fn create_entry(&self, slice: SysSlice) -> (r: Sqe)
        ensures
            r == (Sqe::Send {
                fd: self.fd.raw_fd(),
                buf: slice@.0,
                len: entry_len_of(slice@.1),
                flags: self.flags,
            }),
    {
        Sqe::Send {
            fd: self.fd.as_raw_fd(),
            buf: slice.ptr(),
            len: entry_len(slice.len()),
            flags: self.flags,
        }
    }
}

impl<T, S: AsRawFd> SendVectored<T, S> {
    /// Send with the message header at `msg`.
    pub fn create_entry(&self, msg: usize) -> (r: Sqe)
        ensures
            r == (Sqe::SendMsg { fd: self.fd.raw_fd(), msg, flags: self.flags as u32 }),
    {
        Sqe::SendMsg { fd: self.fd.as_raw_fd(), msg, flags: self.flags as u32 }
    }
}

impl<T, S: AsRawFd> SendTo<T, S> {
    /// Send with the message header at `msg`.
    pub fn create_entry(&self, msg: usize) -> (r: Sqe)
        ensures
            r == (Sqe::SendMsg { fd: self.header.fd.raw_fd(), msg, flags: self.header.flags as u32 }),
    {
        Sqe::SendMsg { fd: self.header.fd.as_raw_fd(), msg, flags: self.header.flags as u32 }
    }
}

impl<T, S: AsRawFd> SendToVectored<T, S> {
    /// Send with the message header at `msg`.
    pub fn create_entry(&self, msg: usize) -> (r: Sqe)
        ensures
            r == (Sqe::SendMsg { fd: self.header.fd.raw_fd(), msg, flags: self.header.flags as u32 }),
    {
        Sqe::SendMsg { fd: self.header.fd.as_raw_fd(), msg, flags: self.header.flags as u32 }
    }
}

impl<T, C, S: AsRawFd> SendMsg<T, C, S> {
    /// Send with the message header at `msg`.
    pub fn create_entry(&self, msg: usize) -> (r: Sqe)
        ensures
            r == (Sqe::SendMsg { fd: self.fd.raw_fd(), msg, flags: self.flags as u32 }),
    {
        Sqe::SendMsg { fd: self.fd.as_raw_fd(), msg, flags: self.flags as u32 }
    }
}

impl<T, S: AsRawFd> Recv<T, S> {
    /// Receive into `slice`.
    pub fn create_entry(&self, slice: SysSlice) -> (r: Sqe)
        ensures
            r == (Sqe::Recv {
                fd: self.fd.raw_fd(),
                buf: slice@.0,
                len: entry_len_of(slice@.1),
                flags: self.flags,
                buf_group: None,
            }),
    {
        Sqe::Recv {
            fd: self.fd.as_raw_fd(),
            buf: slice.ptr(),
            len: entry_len(slice.len()),
            flags: self.flags,
            buf_group: None,
        }
    }
}

impl<T, S: AsRawFd> RecvVectored<T, S> {
    /// Receive with the message header at `msg`.
    pub fn create_entry(&self, msg: usize) -> (r: Sqe)
        ensures
            r == (Sqe::RecvMsg { fd: self.fd.raw_fd(), msg, flags: self.flags as u32, buf_group: None }),
    {
        Sqe::RecvMsg { fd: self.fd.as_raw_fd(), msg, flags: self.flags as u32, buf_group: None }
    }
}

impl<S: AsRawFd> RecvFromHeader<S> {
    /// Receive with the message header at `msg`, which names the address
    /// storage.
    pub fn create_entry(&self, msg: usize) -> (r: Sqe)
        ensures
            r == (Sqe::RecvMsg { fd: self.fd.raw_fd(), msg, flags: self.flags as u32, buf_group: None }),
    {
        Sqe::RecvMsg { fd: self.fd.as_raw_fd(), msg, flags: self.flags as u32, buf_group: None }
    }
}

impl<T, S: AsRawFd> RecvFrom<T, S> {
    /// Receive with the message header at `msg`.
    pub fn create_entry(&self, msg: usize) -> (r: Sqe)
        ensures
            r == (Sqe::RecvMsg {
                fd: self.header.fd.raw_fd(),
                msg,
                flags: self.header.flags as u32,
                buf_group: None,
            }),
    {
        self.header.create_entry(msg)
    }
}

impl<T, S: AsRawFd> RecvFromVectored<T, S> {
    /// Receive with the message header at `msg`.
    pub fn create_entry(&self, msg: usize) -> (r: Sqe)
        ensures
            r == (Sqe::RecvMsg {
                fd: self.header.fd.raw_fd(),
                msg,
                flags: self.header.flags as u32,
                buf_group: None,
            }),
    {
        self.header.create_entry(msg)
    }
}

impl<T, C, S: AsRawFd> RecvMsg<T, C, S> {
    /// Receive with the message header at `msg`.
    pub fn create_entry(&self, msg: usize) -> (r: Sqe)
        ensures
            r == (Sqe::RecvMsg { fd: self.fd.raw_fd(), msg, flags: self.flags as u32, buf_group: None }),
    {
        Sqe::RecvMsg { fd: self.fd.as_raw_fd(), msg, flags: self.flags as u32, buf_group: None }
    }
}

impl<F, D> Asyncify<F, D> {
    /// A function runs on a thread.
    pub fn create_entry(&self) -> (r: Sqe)
        ensures
            r == Sqe::Blocking,
    {
        Sqe::Blocking
    }
}

impl<S, F, D> AsyncifyFd<S, F, D> {
    /// A function runs on a thread.
    pub fn create_entry(&self) -> (r: Sqe)
        ensures
            r == Sqe::Blocking,
    {
        Sqe::Blocking
    }
}

impl<S1, S2, F, D> AsyncifyFd2<S1, S2, F, D> {
    /// A function runs on a thread.
    pub fn create_entry(&self) -> (r: Sqe)
        ensures
            r == Sqe::Blocking,
    {
        Sqe::Blocking
    }
}

impl<S: AsRawFd> ReadManagedAt<S> {
    /// Read at the operation's offset into a buffer the kernel selects.
    pub fn create_entry(&self) -> (r: Sqe)
        ensures
            r == (Sqe::Read {
                fd: self.fd.raw_fd(),
                buf: 0,
                len: self.len,
                offset: Some(self.offset),
                buf_group: Some(self.buffer_group),
            }),
    {
        Sqe::Read {
            fd: self.fd.as_raw_fd(),
            buf: 0,
            len: self.len,
            offset: Some(self.offset),
            buf_group: Some(self.buffer_group),
        }
    }
}

impl<S: AsRawFd> ReadManaged<S> {
    /// Read at the current file position (offset `-1`) into a buffer the
    /// kernel selects.
    pub fn create_entry(&self) -> (r: Sqe)
        ensures
            r == (Sqe::Read {
                fd: self.fd.raw_fd(),
                buf: 0,
                len: self.len,
                offset: Some(u64::MAX),
                buf_group: Some(self.buffer_group),
            }),
    {
        Sqe::Read {
            fd: self.fd.as_raw_fd(),
            buf: 0,
            len: self.len,
            offset: Some(0xffff_ffff_ffff_ffffu64),
            buf_group: Some(self.buffer_group),
        }
    }
}

impl<S: AsRawFd> RecvManaged<S> {
    /// Receive into a buffer the kernel selects.
    pub fn create_entry(&self) -> (r: Sqe)
        ensures
            r == (Sqe::Recv {
                fd: self.fd.raw_fd(),
                buf: 0,
                len: self.len,
                flags: self.flags,
                buf_group: Some(self.buffer_group),
            }),
    {
        Sqe::Recv {
            fd: self.fd.as_raw_fd(),
            buf: 0,
            len: self.len,
            flags: self.flags,
            buf_group: Some(self.buffer_group),
        }
    }
}

impl<S: AsRawFd> RecvFromManaged<S> {
    /// Receive with the message header at `msg` into a buffer the kernel
    /// selects.
    pub fn create_entry(&self, msg: usize) -> (r: Sqe)
        ensures
            r == (Sqe::RecvMsg {
                fd: self.fd.raw_fd(),
                msg,
                flags: self.flags as u32,
                buf_group: Some(self.buffer_group),
            }),
    {
        Sqe::RecvMsg {
            fd: self.fd.as_raw_fd(),
            msg,
            flags: self.flags as u32,
            buf_group: Some(self.buffer_group),
        }
    }
}

impl<C, S: AsRawFd> RecvMsgManaged<C, S> {
    /// Receive with the message header at `msg`, which also names the
    /// control buffer, into a buffer the kernel selects.
    pub fn create_entry(&self, msg: usize) -> (r: Sqe)
        ensures
            r == (Sqe::RecvMsg {
                fd: self.op.fd.raw_fd(),
                msg,
                flags: self.op.flags as u32,
                buf_group: Some(self.op.buffer_group),
            }),
    {
        self.op.create_entry(msg)
    }
}

impl<S: AsRawFd, E> RecvMsgMultiImpl<S, E> {
    /// Receive messages repeatedly with the message header at `msg`.
    pub fn create_entry(&self, msg: usize) -> (r: Sqe)
        ensures
            r == (Sqe::RecvMsgMulti {
                fd: self.fd.raw_fd(),
                msg,
                buf_group: self.buffer_group,
                flags: self.flags as u32,
            }),
    {
        Sqe::RecvMsgMulti {
            fd: self.fd.as_raw_fd(),
            msg,
            buf_group: self.buffer_group,
            flags: self.flags as u32,
        }
    }
}

impl<S: AsRawFd> RecvMsgMultiFallback<S> {
    /// Receive one message with the message header at `msg`.
    pub fn create_entry(&self, msg: usize) -> (r: Sqe)
        ensures
            r == (Sqe::RecvMsg {
                fd: self.op.op.fd.raw_fd(),
                msg,
                flags: self.op.op.flags as u32,
                buf_group: Some(self.op.op.buffer_group),
            }),
    {
        self.op.create_entry(msg)
    }
}

/// The request of a [`RecvMsgMulti`] with the message header at `msg`.
pub open spec fn recv_msg_multi_entry<S: AsRawFd, E>(op: RecvMsgMulti<S, E>, msg: usize) -> Sqe {
    match op.inner {
        RecvMsgMultiInner::Impl(i) => Sqe::RecvMsgMulti {
            fd: i.fd.raw_fd(),
            msg,
            buf_group: i.buffer_group,
            flags: i.flags as u32,
        },
        RecvMsgMultiInner::Fallback(f) => Sqe::RecvMsg {
            fd: f.op.op.fd.raw_fd(),
            msg,
            flags: f.op.op.flags as u32,
            buf_group: Some(f.op.op.buffer_group),
        },
    }
}

impl<S: AsRawFd, E> RecvMsgMulti<S, E> {
    /// Receive messages repeatedly, or one where multishot `recvmsg` is not
    /// available, with the message header at `msg`.
    pub fn create_entry(&self, msg: usize) -> (r: Sqe)
        ensures
            r == recv_msg_multi_entry(*self, msg),
    {
        match &self.inner {
            RecvMsgMultiInner::Impl(i) => i.create_entry(msg),
            RecvMsgMultiInner::Fallback(f) => f.create_entry(msg),
        }
    }
}

impl<S: AsRawFd, E> RecvFromMulti<S, E> {
    /// Receive datagrams repeatedly with the message header at `msg`.
    pub fn create_entry(&self, msg: usize) -> (r: Sqe)
        ensures
            r == recv_msg_multi_entry(self.op, msg),
    {
        self.op.create_entry(msg)
    }
}

impl<T, S: AsRawFd, E> SendZc<T, S, E> {
    /// Send the bytes of `slice` without copying them.
    pub fn create_entry(&self, slice: SysSlice) -> (r: Sqe)
        ensures
            r == (Sqe::SendZc {
                fd: self.op.fd.raw_fd(),
                buf: slice@.0,
                len: entry_len_of(slice@.1),
                flags: self.op.flags,
            }),
    {
        Sqe::SendZc {
            fd: self.op.fd.as_raw_fd(),
            buf: slice.ptr(),
            len: entry_len(slice.len()),
            flags: self.op.flags,
        }
    }

    /// Where zerocopy sending is not available: an ordinary send.
    pub fn create_entry_fallback(&self, slice: SysSlice) -> (r: Sqe)
        ensures
            r == (Sqe::Send {
                fd: self.op.fd.raw_fd(),
                buf: slice@.0,
                len: entry_len_of(slice@.1),
                flags: self.op.flags,
            }),
    {
        self.op.create_entry(slice)
    }
}

impl<T, S: AsRawFd, E> SendToZc<T, S, E> {
    /// Send with the message header at `msg` without copying the data.
    pub fn create_entry(&self, msg: usize) -> (r: Sqe)
        ensures
            r == (Sqe::SendMsgZc {
                fd: self.op.header.fd.raw_fd(),
                msg,
                flags: self.op.header.flags as u32,
            }),
    {
        Sqe::SendMsgZc { fd: self.op.header.fd.as_raw_fd(), msg, flags: self.op.header.flags as u32 }
    }

    /// Where zerocopy sending is not available: an ordinary send.
    pub fn create_entry_fallback(&self, msg: usize) -> (r: Sqe)
        ensures
            r == (Sqe::SendMsg { fd: self.op.header.fd.raw_fd(), msg, flags: self.op.header.flags as u32 }),
    {
        self.op.create_entry(msg)
    }
}

impl<T, S: AsRawFd, E> SendVectoredZc<T, S, E> {
    /// Send with the message header at `msg` without copying the data.
    pub fn create_entry(&self, msg: usize) -> (r: Sqe)
        ensures
            r == (Sqe::SendMsgZc { fd: self.op.fd.raw_fd(), msg, flags: self.op.flags as u32 }),
    {
        Sqe::SendMsgZc { fd: self.op.fd.as_raw_fd(), msg, flags: self.op.flags as u32 }
    }

    /// Where zerocopy sending is not available: an ordinary send.
    pub fn create_entry_fallback(&self, msg: usize) -> (r: Sqe)
        ensures
            r == (Sqe::SendMsg { fd: self.op.fd.raw_fd(), msg, flags: self.op.flags as u32 }),
    {
        self.op.create_entry(msg)
    }
}

impl<T, S: AsRawFd, E> SendToVectoredZc<T, S, E> {
    /// Send with the message header at `msg` without copying the data.
    pub fn create_entry(&self, msg: usize) -> (r: Sqe)
        ensures
            r == (Sqe::SendMsgZc {
                fd: self.op.header.fd.raw_fd(),
                msg,
                flags: self.op.header.flags as u32,
            }),
    {
        Sqe::SendMsgZc { fd: self.op.header.fd.as_raw_fd(), msg, flags: self.op.header.flags as u32 }
    }

    /// Where zerocopy sending is not available: an ordinary send.
    pub fn create_entry_fallback(&self, msg: usize) -> (r: Sqe)
        ensures
            r == (Sqe::SendMsg { fd: self.op.header.fd.raw_fd(), msg, flags: self.op.header.flags as u32 }),
    {
        self.op.create_entry(msg)
    }
}

impl<T, C, S: AsRawFd, E> SendMsgZc<T, C, S, E> {
    /// Send with the message header at `msg` without copying the data.
    pub fn create_entry(&self, msg: usize) -> (r: Sqe)
        ensures
            r == (Sqe::SendMsgZc { fd: self.op.fd.raw_fd(), msg, flags: self.op.flags as u32 }),
    {
        Sqe::SendMsgZc { fd: self.op.fd.as_raw_fd(), msg, flags: self.op.flags as u32 }
    }

    /// Where zerocopy sending is not available: an ordinary send.
    pub fn create_entry_fallback(&self, msg: usize) -> (r: Sqe)
        ensures
            r == (Sqe::SendMsg { fd: self.op.fd.raw_fd(), msg, flags: self.op.flags as u32 }),
    {
        self.op.create_entry(msg)
    }
}

} // verus!
