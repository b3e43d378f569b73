use vstd::prelude::*;
use crate::interest::{AsRawFd, Decision, Interest, OpType, RawFd, WaitArg};
use crate::sys_slice::SysSlice;

verus! {

/// The length a kernel request holds for a buffer of `len` bytes: the
/// buffer's length, or the largest 32-bit length for a longer buffer.
pub open spec fn entry_len_of(len: usize) -> u32 {
    if len <= u32::MAX {
        len as u32
    } else {
        u32::MAX
    }
}

/// The length a kernel request takes for a buffer of `len` bytes: it
/// holds 32 bits, so a longer buffer is offered up to the largest length
/// it can hold.
pub fn entry_len(len: usize) -> (r: u32)
    ensures
        r == entry_len_of(len),
{
    if len <= 0xffff_ffffusize {
        len as u32
    } else {
        0xffff_ffffu32
    }
}

/// Read a file at specified position into specified buffer.
pub struct ReadAt<T, S> {
    pub fd: S,
    pub offset: u64,
    pub buffer: T,
}

impl<T, S> ReadAt<T, S> {
    /// Create [`ReadAt`].
    pub fn new(fd: S, offset: u64, buffer: T) -> (r: Self)
        ensures
            r.fd == fd,
            r.offset == offset,
            r.buffer == buffer,
    {
        ReadAt { fd, offset, buffer }
    }

    /// The buffer.
    pub fn into_inner(self) -> (r: T)
        ensures
            r == self.buffer,
    {
        self.buffer
    }
}

/// Write a file at specified position from specified buffer.
pub struct WriteAt<T, S> {
    pub fd: S,
    pub offset: u64,
    pub buffer: T,
}

impl<T, S> WriteAt<T, S> {
    /// Create [`WriteAt`].
    pub fn new(fd: S, offset: u64, buffer: T) -> (r: Self)
        ensures
            r.fd == fd,
            r.offset == offset,
            r.buffer == buffer,
    {
        WriteAt { fd, offset, buffer }
    }

    /// The buffer.
    pub fn into_inner(self) -> (r: T)
        ensures
            r == self.buffer,
    {
        self.buffer
    }
}

/// Read a file.
pub struct Read<T, S> {
    pub fd: S,
    pub buffer: T,
}

impl<T, S> Read<T, S> {
    /// Create [`Read`].
    pub fn new(fd: S, buffer: T) -> (r: Self)
        ensures
            r.fd == fd,
            r.buffer == buffer,
    {
        Read { fd, buffer }
    }

    /// The buffer.
    pub fn into_inner(self) -> (r: T)
        ensures
            r == self.buffer,
    {
        self.buffer
    }
}

impl<T, S: AsRawFd> Read<T, S> {
    /// Polling: wait for the fd to be readable.
    pub fn pre_submit(&self) -> (r: Decision)
        ensures
            r matches Decision::Wait(args) && args@ == seq![
                WaitArg { fd: self.fd.raw_fd(), interest: Interest::Readable },
            ],
    {
        Decision::wait_readable(self.fd.as_raw_fd())
    }

    /// Polling: the operation polls its fd.
    pub fn op_type(&self) -> (r: OpType)
        ensures
            r matches OpType::Fd(fds) && fds@ == seq![self.fd.raw_fd()],
    {
        OpType::fd(self.fd.as_raw_fd())
    }
}

/// Write a file.
pub struct Write<T, S> {
    pub fd: S,
    pub buffer: T,
}

impl<T, S> Write<T, S> {
    /// Create [`Write`].
    pub fn new(fd: S, buffer: T) -> (r: Self)
        ensures
            r.fd == fd,
            r.buffer == buffer,
    {
        Write { fd, buffer }
    }

    /// The buffer.
    pub fn into_inner(self) -> (r: T)
        ensures
            r == self.buffer,
    {
        self.buffer
    }
}

impl<T, S: AsRawFd> Write<T, S> {
    /// Polling: wait for the fd to be writable.
    pub fn pre_submit(&self) -> (r: Decision)
        ensures
            r matches Decision::Wait(args) && args@ == seq![
                WaitArg { fd: self.fd.raw_fd(), interest: Interest::Writable },
            ],
    {
        Decision::wait_writable(self.fd.as_raw_fd())
    }

    /// Polling: the operation polls its fd.
    pub fn op_type(&self) -> (r: OpType)
        ensures
            r matches OpType::Fd(fds) && fds@ == seq![self.fd.raw_fd()],
    {
        OpType::fd(self.fd.as_raw_fd())
    }
}

/// The AIO control block of an operation.
#[derive(Debug, Clone, Copy, PartialEq, Eq, Structural)]
pub struct Aiocb {
    pub aio_fildes: RawFd,
    pub aio_offset: i64,
    pub aio_buf: usize,
    pub aio_nbytes: usize,
}

impl Aiocb {
    /// A zeroed control block.
    pub fn zeroed() -> (r: Self)
        ensures
            r == (Aiocb { aio_fildes: 0, aio_offset: 0, aio_buf: 0, aio_nbytes: 0 }),
    {
        Aiocb { aio_fildes: 0, aio_offset: 0, aio_buf: 0, aio_nbytes: 0 }
    }

    /// Point the block at `fd`, `offset` and the buffer `slice`.
    pub fn init(&mut self, fd: RawFd, offset: u64, slice: SysSlice)
        ensures
            final(self).aio_fildes == fd,
            final(self).aio_offset == offset as i64,
            final(self).aio_buf == slice@.0,
            final(self).aio_nbytes == slice@.1,
    {
        self.aio_fildes = fd;
        self.aio_offset = offset as i64;
        self.aio_buf = slice.ptr();
        self.aio_nbytes = slice.len();
    }
}

/// Control of [`ReadAt`]: its AIO control block.
pub struct ReadAtControl {
    pub aiocb: Aiocb,
}

impl Default for ReadAtControl {
    fn default() -> (r: Self)
        ensures
            r.aiocb == Aiocb::zeroed_spec(),
    {
        ReadAtControl { aiocb: Aiocb::zeroed() }
    }
}

/// Control of [`WriteAt`]: its AIO control block.
pub struct WriteAtControl {
    pub aiocb: Aiocb,
}

impl Default for WriteAtControl {
    fn default() -> (r: Self)
        ensures
            r.aiocb == Aiocb::zeroed_spec(),
    {
        WriteAtControl { aiocb: Aiocb::zeroed() }
    }
}

/// Control of a sync: its AIO control block.
pub struct SyncControl {
    pub aiocb: Aiocb,
}

impl Default for SyncControl {
    fn default() -> (r: Self)
        ensures
            r.aiocb == Aiocb::zeroed_spec(),
    {
        SyncControl { aiocb: Aiocb::zeroed() }
    }
}

impl Aiocb {
    /// The zeroed control block.
    pub open spec fn zeroed_spec() -> Self {
        Aiocb { aio_fildes: 0, aio_offset: 0, aio_buf: 0, aio_nbytes: 0 }
    }
}

impl<T, S> ReadAt<T, S> {
    /// Without AIO (as on Linux) the read runs on a thread.
    pub fn pre_submit(&self) -> (r: Decision)
        ensures
            r is Blocking,
    {
        Decision::Blocking
    }
}

impl<T, S> WriteAt<T, S> {
    /// Without AIO (as on Linux) the write runs on a thread.
    pub fn pre_submit(&self) -> (r: Decision)
        ensures
            r is Blocking,
    {
        Decision::Blocking
    }
}

} // verus!
