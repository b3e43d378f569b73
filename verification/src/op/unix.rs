use vstd::prelude::*;
use crate::interest::{AsRawFd, Decision, Interest, OpType, RawFd, WaitArg};
use crate::io_result::IoError;
use crate::op::general::Aiocb;
use crate::buf_result::VectoredBuf;
use crate::sys_slice::{spans, SysSlice};

verus! {

/// `O_CLOEXEC`.
pub const O_CLOEXEC: i32 = 0x80000;
/// `O_NONBLOCK`.
pub const O_NONBLOCK: i32 = 0x800;
/// `FD_CLOEXEC`.
pub const FD_CLOEXEC: i32 = 1;
/// `AT_REMOVEDIR`.
pub const AT_REMOVEDIR: i32 = 0x200;
/// `POLLIN`: there is data to read.
pub const POLLIN: i16 = 0x1;
/// `POLLOUT`: writing is possible.
pub const POLLOUT: i16 = 0x4;

/// Open or create a file with flags and mode.
pub struct OpenFile<S> {
    pub dirfd: S,
    pub path: Vec<u8>,
    pub flags: i32,
    pub mode: u32,
    pub opened_fd: Option<RawFd>,
}

impl<S> OpenFile<S> {
    /// Create [`OpenFile`].
    pub fn new(dirfd: S, path: Vec<u8>, flags: i32, mode: u32) -> (r: Self)
        ensures
            r.dirfd == dirfd,
            r.path@ == path@,
            r.flags == flags,
            r.mode == mode,
            r.opened_fd is None,
    {
        OpenFile { dirfd, path, flags, mode, opened_fd: None }
    }

    /// The flags passed to `openat`: the requested ones, close-on-exec.
    pub fn open_flags(&self) -> (r: i32)
        ensures
            r == self.flags | O_CLOEXEC,
    {
        self.flags | O_CLOEXEC
    }

    /// Keep the fd that a successful open returned.
    pub fn set_result(&mut self, res: &Result<usize, IoError>)
        requires
            res is Ok ==> res.unwrap() <= i32::MAX,
        ensures
            res is Ok ==> final(self).opened_fd == Some(res.unwrap() as RawFd),
            res is Err ==> final(self).opened_fd == old(self).opened_fd,
            final(self).flags == old(self).flags,
    {
        if let Ok(fd) = res {
            self.opened_fd = Some(*fd as RawFd);
        }
    }

    /// The opened fd.
    pub fn into_inner(self) -> (r: RawFd)
        requires
            self.opened_fd is Some,
        ensures
            r == self.opened_fd.unwrap(),
    {
        self.opened_fd.unwrap()
    }
}

/// Truncates or extends the underlying file, updating the size of the
/// file to `size`.
pub struct TruncateFile<S> {
    pub fd: S,
    pub size: u64,
}

impl<S> TruncateFile<S> {
    /// Create [`TruncateFile`].
    pub fn new(fd: S, size: u64) -> (r: Self)
        ensures
            r.fd == fd,
            r.size == size,
    {
        TruncateFile { fd, size }
    }

    /// The size passed to `ftruncate`, which takes a signed size.
    pub fn call_size(&self) -> (r: Result<i64, IoError>)
        ensures
            self.size <= i64::MAX ==> r == Ok::<i64, IoError>(self.size as i64),
            self.size > i64::MAX ==> r == Err::<i64, IoError>(IoError::InvalidInput),
    {
        crate::op::fs::truncate_size(self.size)
    }
}

/// Read a file at specified position into vectored buffer.
pub struct ReadVectoredAt<T, S> {
    pub fd: S,
    pub offset: u64,
    pub buffer: T,
}

/// Control of [`ReadVectoredAt`]: the slices of the buffer and the AIO
/// control block.
pub struct ReadVectoredAtControl {
    pub slices: Vec<SysSlice>,
    pub aiocb: Aiocb,
}

impl Default for ReadVectoredAtControl {
    fn default() -> (r: Self)
        ensures
            r.slices@.len() == 0,
            r.aiocb == Aiocb::zeroed_spec(),
    {
        ReadVectoredAtControl { slices: Vec::new(), aiocb: Aiocb::zeroed() }
    }
}

impl<T, S> ReadVectoredAt<T, S> {
    /// Create [`ReadVectoredAt`].
    pub fn new(fd: S, offset: u64, buffer: T) -> (r: Self)
        ensures
            r.fd == fd,
            r.offset == offset,
            r.buffer == buffer,
    {
        ReadVectoredAt { fd, offset, buffer }
    }

    /// The buffer.
    pub fn into_inner(self) -> (r: T)
        ensures
            r == self.buffer,
    {
        self.buffer
    }
}

impl<T: VectoredBuf, S: AsRawFd> ReadVectoredAt<T, S> {
    /// Fill the control from the slices of the buffer, each over its
    /// buffer's whole room: the AIO block reads the slice array at the
    /// offset.
    pub fn create_control(&self, ctrl: &mut ReadVectoredAtControl, slices: Vec<SysSlice>, array: usize)
        requires
            spans(slices@, self.buffer.capacities()),
        ensures
            final(ctrl).slices@ == slices@,
            final(ctrl).aiocb.aio_fildes == self.fd.raw_fd(),
            final(ctrl).aiocb.aio_offset == self.offset as i64,
            final(ctrl).aiocb.aio_buf == array,
            final(ctrl).aiocb.aio_nbytes == slices@.len(),
    {
        let n = slices.len();
        ctrl.slices = slices;
        ctrl.aiocb.init(self.fd.as_raw_fd(), self.offset, SysSlice::from_parts(array, n));
    }
}

/// Write a file at specified position from vectored buffer.
pub struct WriteVectoredAt<T, S> {
    pub fd: S,
    pub offset: u64,
    pub buffer: T,
}

/// Control of [`WriteVectoredAt`]: the slices of the buffer and the AIO
/// control block.
pub struct WriteVectoredAtControl {
    pub slices: Vec<SysSlice>,
    pub aiocb: Aiocb,
}

impl Default for WriteVectoredAtControl {
    fn default() -> (r: Self)
        ensures
            r.slices@.len() == 0,
            r.aiocb == Aiocb::zeroed_spec(),
    {
        WriteVectoredAtControl { slices: Vec::new(), aiocb: Aiocb::zeroed() }
    }
}

impl<T, S> WriteVectoredAt<T, S> {
    /// Create [`WriteVectoredAt`].
    pub fn new(fd: S, offset: u64, buffer: T) -> (r: Self)
        ensures
            r.fd == fd,
            r.offset == offset,
            r.buffer == buffer,
    {
        WriteVectoredAt { fd, offset, buffer }
    }

    /// The buffer.
    pub fn into_inner(self) -> (r: T)
        ensures
            r == self.buffer,
    {
        self.buffer
    }
}

impl<T: VectoredBuf, S: AsRawFd> WriteVectoredAt<T, S> {
    /// Fill the control from the slices of the buffer, each over its
    /// buffer's initialized bytes: the AIO block writes the slice array at
    /// the offset.
    pub fn create_control(&self, ctrl: &mut WriteVectoredAtControl, slices: Vec<SysSlice>, array: usize)
        requires
            spans(slices@, self.buffer.init_lens()),
        ensures
            final(ctrl).slices@ == slices@,
            final(ctrl).aiocb.aio_fildes == self.fd.raw_fd(),
            final(ctrl).aiocb.aio_offset == self.offset as i64,
            final(ctrl).aiocb.aio_buf == array,
            final(ctrl).aiocb.aio_nbytes == slices@.len(),
    {
        let n = slices.len();
        ctrl.slices = slices;
        ctrl.aiocb.init(self.fd.as_raw_fd(), self.offset, SysSlice::from_parts(array, n));
    }
}

/// Receive a file into vectored buffer.
pub struct ReadVectored<T, S> {
    pub fd: S,
    pub buffer: T,
}

/// Control of [`ReadVectored`]: the slices of the buffer.
pub struct ReadVectoredControl {
    pub slices: Vec<SysSlice>,
}

impl Default for ReadVectoredControl {
    fn default() -> (r: Self)
        ensures
            r.slices@.len() == 0,
    {
        ReadVectoredControl { slices: Vec::new() }
    }
}

impl<T, S> ReadVectored<T, S> {
    /// Create [`ReadVectored`].
    pub fn new(fd: S, buffer: T) -> (r: Self)
        ensures
            r.fd == fd,
            r.buffer == buffer,
    {
        ReadVectored { fd, buffer }
    }

    /// The buffer.
    pub fn into_inner(self) -> (r: T)
        ensures
            r == self.buffer,
    {
        self.buffer
    }
}

impl<T: VectoredBuf, S> ReadVectored<T, S> {
    /// Fill the control with the slices of the buffer, each over its
    /// buffer's whole room.
    pub fn create_control(&self, ctrl: &mut ReadVectoredControl, slices: Vec<SysSlice>)
        requires
            spans(slices@, self.buffer.capacities()),
        ensures
            final(ctrl).slices@ == slices@,
            spans(final(ctrl).slices@, self.buffer.capacities()),
    {
        ctrl.slices = slices;
    }
}

impl<T, S: AsRawFd> ReadVectored<T, S> {
    /// Polling: wait for the fd to be readable.
    pub fn pre_submit(&self) -> (r: Decision)
        ensures
            r matches Decision::Wait(args) && args@ == seq![
                WaitArg { fd: self.fd.raw_fd(), interest: Interest::Readable },
            ],
    {
        Decision::wait_readable(self.fd.as_raw_fd())
    }
}

/// Send to a file from vectored buffer.
pub struct WriteVectored<T, S> {
    pub fd: S,
    pub buffer: T,
}

/// Control of [`WriteVectored`]: the slices of the buffer.
pub struct WriteVectoredControl {
    pub slices: Vec<SysSlice>,
}

impl Default for WriteVectoredControl {
    fn default() -> (r: Self)
        ensures
            r.slices@.len() == 0,
    {
        WriteVectoredControl { slices: Vec::new() }
    }
}

impl<T, S> WriteVectored<T, S> {
    /// Create [`WriteVectored`].
    pub fn new(fd: S, buffer: T) -> (r: Self)
        ensures
            r.fd == fd,
            r.buffer == buffer,
    {
        WriteVectored { fd, buffer }
    }

    /// The buffer.
    pub fn into_inner(self) -> (r: T)
        ensures
            r == self.buffer,
    {
        self.buffer
    }
}

impl<T: VectoredBuf, S> WriteVectored<T, S> {
    /// Fill the control with the slices of the buffer, each over its
    /// buffer's initialized bytes.
    pub fn create_control(&self, ctrl: &mut WriteVectoredControl, slices: Vec<SysSlice>)
        requires
            spans(slices@, self.buffer.init_lens()),
        ensures
            final(ctrl).slices@ == slices@,
            spans(final(ctrl).slices@, self.buffer.init_lens()),
    {
        ctrl.slices = slices;
    }
}

impl<T, S: AsRawFd> WriteVectored<T, S> {
    /// Polling: wait for the fd to be writable.
    pub fn pre_submit(&self) -> (r: Decision)
        ensures
            r matches Decision::Wait(args) && args@ == seq![
                WaitArg { fd: self.fd.raw_fd(), interest: Interest::Writable },
            ],
    {
        Decision::wait_writable(self.fd.as_raw_fd())
    }
}

/// Remove file or directory.
pub struct Unlink<S> {
    pub dirfd: S,
    pub path: Vec<u8>,
    pub dir: bool,
}

impl<S> Unlink<S> {
    /// Create [`Unlink`].
    pub fn new(dirfd: S, path: Vec<u8>, dir: bool) -> (r: Self)
        ensures
            r.dirfd == dirfd,
            r.path@ == path@,
            r.dir == dir,
    {
        Unlink { dirfd, path, dir }
    }

    /// The flags passed to `unlinkat`: remove a directory or a file.
    pub fn unlink_flags(&self) -> (r: i32)
        ensures
            r == if self.dir {
                AT_REMOVEDIR
            } else {
                0
            },
    {
        if self.dir {
            AT_REMOVEDIR
        } else {
            0
        }
    }
}

/// Create a directory.
pub struct CreateDir<S> {
    pub dirfd: S,
    pub path: Vec<u8>,
    pub mode: u32,
}

impl<S> CreateDir<S> {
    /// Create [`CreateDir`].
    pub fn new(dirfd: S, path: Vec<u8>, mode: u32) -> (r: Self)
        ensures
            r.dirfd == dirfd,
            r.path@ == path@,
            r.mode == mode,
    {
        CreateDir { dirfd, path, mode }
    }
}

/// Rename a file or directory.
pub struct Rename<S1, S2> {
    pub old_dirfd: S1,
    pub old_path: Vec<u8>,
    pub new_dirfd: S2,
    pub new_path: Vec<u8>,
}

impl<S1, S2> Rename<S1, S2> {
    /// Create [`Rename`].
    pub fn new(old_dirfd: S1, old_path: Vec<u8>, new_dirfd: S2, new_path: Vec<u8>) -> (r: Self)
        ensures
            r.old_dirfd == old_dirfd,
            r.old_path@ == old_path@,
            r.new_dirfd == new_dirfd,
            r.new_path@ == new_path@,
    {
        Rename { old_dirfd, old_path, new_dirfd, new_path }
    }
}

/// Create a symlink.
pub struct Symlink<S> {
    pub source: Vec<u8>,
    pub dirfd: S,
    pub target: Vec<u8>,
}

impl<S> Symlink<S> {
    /// Create [`Symlink`]. `target` is a symlink to `source`.
    pub fn new(source: Vec<u8>, dirfd: S, target: Vec<u8>) -> (r: Self)
        ensures
            r.source@ == source@,
            r.dirfd == dirfd,
            r.target@ == target@,
    {
        Symlink { source, dirfd, target }
    }
}

/// Create a hard link.
pub struct HardLink<S1, S2> {
    pub source_dirfd: S1,
    pub source: Vec<u8>,
    pub target_dirfd: S2,
    pub target: Vec<u8>,
}

impl<S1, S2> HardLink<S1, S2> {
    /// Create [`HardLink`]. `target` is a hard link to `source`.
    pub fn new(source_dirfd: S1, source: Vec<u8>, target_dirfd: S2, target: Vec<u8>) -> (r: Self)
        ensures
            r.source_dirfd == source_dirfd,
            r.source@ == source@,
            r.target_dirfd == target_dirfd,
            r.target@ == target@,
    {
        HardLink { source_dirfd, source, target_dirfd, target }
    }
}

/// Poll a file descriptor for specified [`Interest`].
pub struct PollOnce<S> {
    pub fd: S,
    pub interest: Interest,
}

impl<S> PollOnce<S> {
    /// Create [`PollOnce`].
    pub fn new(fd: S, interest: Interest) -> (r: Self)
        ensures
            r.fd == fd,
            r.interest == interest,
    {
        PollOnce { fd, interest }
    }

    /// The fd.
    pub fn into_inner(self) -> (r: S)
        ensures
            r == self.fd,
    {
        self.fd
    }

    /// The `poll` events to wait for: `POLLIN` to read, `POLLOUT` to write.
    pub fn poll_flags(&self) -> (r: i16)
        ensures
            self.interest == Interest::Readable ==> r == POLLIN,
            self.interest == Interest::Writable ==> r == POLLOUT,
    {
        match self.interest {
            Interest::Readable => POLLIN,
            Interest::Writable => POLLOUT,
        }
    }
}

impl<S: AsRawFd> PollOnce<S> {
    /// Polling: wait for the interest on the fd.
    pub fn pre_submit(&self) -> (r: Decision)
        ensures
            r matches Decision::Wait(args) && args@ == seq![
                WaitArg { fd: self.fd.raw_fd(), interest: self.interest },
            ],
    {
        Decision::wait_for(self.fd.as_raw_fd(), self.interest)
    }

    /// Polling: the operation polls its fd.
    pub fn op_type(&self) -> (r: OpType)
        ensures
            r matches OpType::Fd(fds) && fds@ == seq![self.fd.raw_fd()],
    {
        OpType::fd(self.fd.as_raw_fd())
    }
}

/// Create a pipe.
pub struct Pipe {
    pub fds: [Option<RawFd>; 2],
}

impl Pipe {
    /// Create [`Pipe`].
    pub fn new() -> (r: Self)
        ensures
            r.fds[0] is None,
            r.fds[1] is None,
    {
        Pipe { fds: [None, None] }
    }

    /// The flags `pipe2` creates the pipe with: close-on-exec, non-blocking.
    pub fn pipe_flags() -> (r: i32)
        ensures
            r == O_CLOEXEC | O_NONBLOCK,
    {
        O_CLOEXEC | O_NONBLOCK
    }

    /// Keep the two ends that the pipe was created with.
    pub fn set_fds(&mut self, read_fd: RawFd, write_fd: RawFd)
        ensures
            final(self).fds[0] == Some(read_fd),
            final(self).fds[1] == Some(write_fd),
    {
        self.fds = [Some(read_fd), Some(write_fd)];
    }

    /// The read end and the write end.
    pub fn into_inner(self) -> (r: (RawFd, RawFd))
        requires
            self.fds[0] is Some,
            self.fds[1] is Some,
        ensures
            r == (self.fds[0].unwrap(), self.fds[1].unwrap()),
    {
        let read_fd = self.fds[0];
        let write_fd = self.fds[1];
        (read_fd.unwrap(), write_fd.unwrap())
    }
}

/// The fd flags that make an fd close-on-exec, from its current ones.
pub fn with_cloexec(fd_flags: i32) -> (r: i32)
    ensures
        r == fd_flags | FD_CLOEXEC,
{
    fd_flags | FD_CLOEXEC
}

/// The status flags that make an fd non-blocking, from its current ones.
pub fn with_nonblock(status_flags: i32) -> (r: i32)
    ensures
        r == status_flags | O_NONBLOCK,
{
    status_flags | O_NONBLOCK
}

impl<T, S> ReadVectoredAt<T, S> {
    /// Without AIO (as on Linux) the read runs on a thread.
    pub fn pre_submit(&self) -> (r: Decision)
        ensures
            r is Blocking,
    {
        Decision::Blocking
    }
}

impl<T, S> WriteVectoredAt<T, S> {
    /// Without AIO (as on Linux) the write runs on a thread.
    pub fn pre_submit(&self) -> (r: Decision)
        ensures
            r is Blocking,
    {
        Decision::Blocking
    }
}

} // verus!
