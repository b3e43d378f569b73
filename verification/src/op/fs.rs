use vstd::prelude::*;
use crate::interest::{AsRawFd, Decision, Interest, OpType, RawFd, WaitArg};
use crate::io_result::IoError;
use crate::stat::{statx_flags, FileAttr, Stat};

verus! {

/// Close the file fd.
pub struct CloseFile {
    pub fd: RawFd,
}

impl CloseFile {
    /// Create [`CloseFile`].
    pub fn new(fd: RawFd) -> (r: Self)
        ensures
            r.fd == fd,
    {
        CloseFile { fd }
    }
}

/// Read an extended attribute from a path, following the final symbolic
/// link. The result is the number of bytes written, or the required size
/// when the buffer has zero capacity.
pub struct GetXattr<T> {
    pub path: Vec<u8>,
    pub name: Vec<u8>,
    pub buffer: T,
}

impl<T> GetXattr<T> {
    /// Create [`GetXattr`], retaining the path, name, and buffer until
    /// completion.
    pub fn new(path: Vec<u8>, name: Vec<u8>, buffer: T) -> (r: Self)
        ensures
            r.path@ == path@,
            r.name@ == name@,
            r.buffer == buffer,
    {
        GetXattr { path, name, buffer }
    }

    /// The buffer.
    pub fn into_inner(self) -> (r: T)
        ensures
            r == self.buffer,
    {
        self.buffer
    }
}

/// Read an extended attribute from an open file.
pub struct FGetXattr<S, T> {
    pub fd: S,
    pub name: Vec<u8>,
    pub buffer: T,
}

impl<S, T> FGetXattr<S, T> {
    /// Create [`FGetXattr`], retaining the fd, name, and buffer until
    /// completion.
    pub fn new(fd: S, name: Vec<u8>, buffer: T) -> (r: Self)
        ensures
            r.fd == fd,
            r.name@ == name@,
            r.buffer == buffer,
    {
        FGetXattr { fd, name, buffer }
    }

    /// The buffer.
    pub fn into_inner(self) -> (r: T)
        ensures
            r == self.buffer,
    {
        self.buffer
    }
}

/// Sync data to the disk.
pub struct Sync<S> {
    pub fd: S,
    pub datasync: bool,
}

/// The call that syncs a file.
#[derive(Debug, Clone, Copy, PartialEq, Eq, Structural)]
pub enum SyncCall {
    /// `fsync`: data and metadata.
    Fsync,
    /// `fdatasync`: data, and only the metadata needed to read it back.
    Fdatasync,
}

impl<S> Sync<S> {
    /// Create [`Sync`]. If `datasync` is `true`, the file metadata may not
    /// be synchronized.
    pub fn new(fd: S, datasync: bool) -> (r: Self)
        ensures
            r.fd == fd,
            r.datasync == datasync,
    {
        Sync { fd, datasync }
    }

    /// The call to make: `fdatasync` when only data is asked for.
    pub fn call(&self) -> (r: SyncCall)
        ensures
            self.datasync ==> r == SyncCall::Fdatasync,
            !self.datasync ==> r == SyncCall::Fsync,
    {
        if self.datasync {
            SyncCall::Fdatasync
        } else {
            SyncCall::Fsync
        }
    }
}

/// `SPLICE_F_NONBLOCK`.
pub const SPLICE_F_NONBLOCK: u32 = 2;

/// Splice data between two file descriptors.
pub struct Splice<S1, S2> {
    pub fd_in: S1,
    pub offset_in: i64,
    pub fd_out: S2,
    pub offset_out: i64,
    pub len: usize,
    pub flags: u32,
}

/// The offset passed for one end of a splice: none (use the current
/// position, or a pipe) when negative.
pub open spec fn splice_offset_of(off: i64) -> Option<u64> {
    if off >= 0 {
        Some(off as u64)
    } else {
        None
    }
}

impl<S1, S2> Splice<S1, S2> {
    /// Create [`Splice`]. `offset_in` and `offset_out` are the offsets to
    /// read from and write to; `-1` stands for pipe ends or the current
    /// file position.
    pub fn new(fd_in: S1, offset_in: i64, fd_out: S2, offset_out: i64, len: usize, flags: u32) -> (r:
        Self)
        ensures
            r.fd_in == fd_in,
            r.offset_in == offset_in,
            r.fd_out == fd_out,
            r.offset_out == offset_out,
            r.len == len,
            r.flags == flags,
    {
        Splice { fd_in, offset_in, fd_out, offset_out, len, flags }
    }

    /// The offsets passed for the input and the output end.
    pub fn offsets(&self) -> (r: (Option<u64>, Option<u64>))
        ensures
            r == (splice_offset_of(self.offset_in), splice_offset_of(self.offset_out)),
    {
        let off_in = if self.offset_in >= 0 {
            Some(self.offset_in as u64)
        } else {
            None
        };
        let off_out = if self.offset_out >= 0 {
            Some(self.offset_out as u64)
        } else {
            None
        };
        (off_in, off_out)
    }

    /// The flags passed when polling: the operation's own, non-blocking.
    pub fn nonblocking_flags(&self) -> (r: u32)
        ensures
            r == self.flags | SPLICE_F_NONBLOCK,
    {
        self.flags | SPLICE_F_NONBLOCK
    }

    /// The fds.
    pub fn into_inner(self) -> (r: (S1, S2))
        ensures
            r == (self.fd_in, self.fd_out),
    {
        (self.fd_in, self.fd_out)
    }
}

impl<S1: AsRawFd, S2: AsRawFd> Splice<S1, S2> {
    /// Polling: wait for the input to be readable and the output writable.
    pub fn pre_submit(&self) -> (r: Decision)
        ensures
            r matches Decision::Wait(args) && args@ == seq![
                WaitArg { fd: self.fd_in.raw_fd(), interest: Interest::Readable },
                WaitArg { fd: self.fd_out.raw_fd(), interest: Interest::Writable },
            ],
    {
        let mut args: Vec<WaitArg> = Vec::new();
        args.push(WaitArg::readable(self.fd_in.as_raw_fd()));
        args.push(WaitArg::writable(self.fd_out.as_raw_fd()));
        assert(args@ =~= seq![
            WaitArg { fd: self.fd_in.raw_fd(), interest: Interest::Readable },
            WaitArg { fd: self.fd_out.raw_fd(), interest: Interest::Writable },
        ]);
        Decision::wait_for_many(args)
    }

    /// Polling: the operation polls both fds.
    pub fn op_type(&self) -> (r: OpType)
        ensures
            r matches OpType::Fd(fds) && fds@ == seq![self.fd_in.raw_fd(), self.fd_out.raw_fd()],
    {
        let mut fds: Vec<RawFd> = Vec::new();
        fds.push(self.fd_in.as_raw_fd());
        fds.push(self.fd_out.as_raw_fd());
        assert(fds@ =~= seq![self.fd_in.raw_fd(), self.fd_out.raw_fd()]);
        OpType::multi_fd(fds)
    }
}

/// A zeroed `stat`.
pub open spec fn zeroed_stat() -> Stat {
    Stat {
        st_dev: 0,
        st_ino: 0,
        st_nlink: 0,
        st_mode: 0,
        st_uid: 0,
        st_gid: 0,
        st_rdev: 0,
        st_size: 0,
        st_blksize: 0,
        st_blocks: 0,
        st_atime: 0,
        st_atime_nsec: 0,
        st_mtime: 0,
        st_mtime_nsec: 0,
        st_ctime: 0,
        st_ctime_nsec: 0,
    }
}

/// A zeroed `stat`.
pub fn new_zeroed_stat() -> (r: Stat)
    ensures
        r == zeroed_stat(),
{
    Stat {
        st_dev: 0,
        st_ino: 0,
        st_nlink: 0,
        st_mode: 0,
        st_uid: 0,
        st_gid: 0,
        st_rdev: 0,
        st_size: 0,
        st_blksize: 0,
        st_blocks: 0,
        st_atime: 0,
        st_atime_nsec: 0,
        st_mtime: 0,
        st_mtime_nsec: 0,
        st_ctime: 0,
        st_ctime_nsec: 0,
    }
}

/// Get metadata of an opened file.
pub struct FileStat<S> {
    pub fd: S,
    pub stat: Stat,
}

impl<S> FileStat<S> {
    /// Create [`FileStat`].
    pub fn new(fd: S) -> (r: Self)
        ensures
            r.fd == fd,
            r.stat == zeroed_stat(),
    {
        FileStat { fd, stat: new_zeroed_stat() }
    }

    /// Record the metadata read.
    pub fn set_stat(&mut self, attr: FileAttr)
        ensures
            final(self).fd == old(self).fd,
            final(self).stat == attr.stat,
    {
        self.stat = attr.stat;
    }

    /// The metadata read.
    pub fn into_inner(self) -> (r: Stat)
        ensures
            r == self.stat,
    {
        self.stat
    }
}

/// Get metadata from path.
pub struct PathStat<S> {
    pub dirfd: S,
    pub path: Vec<u8>,
    pub stat: Stat,
    pub follow_symlink: bool,
}

impl<S> PathStat<S> {
    /// Create [`PathStat`].
    pub fn new(dirfd: S, path: Vec<u8>, follow_symlink: bool) -> (r: Self)
        ensures
            r.dirfd == dirfd,
            r.path@ == path@,
            r.stat == zeroed_stat(),
            r.follow_symlink == follow_symlink,
    {
        PathStat { dirfd, path, stat: new_zeroed_stat(), follow_symlink }
    }

    /// The `statx` flags of this operation.
    pub fn flags(&self) -> (r: u32)
        ensures
            r == if self.follow_symlink {
                crate::stat::AT_EMPTY_PATH
            } else {
                crate::stat::AT_EMPTY_PATH | crate::stat::AT_SYMLINK_NOFOLLOW
            },
    {
        statx_flags(self.follow_symlink)
    }

    /// Record the metadata read.
    pub fn set_stat(&mut self, attr: FileAttr)
        ensures
            final(self).stat == attr.stat,
            final(self).path@ == old(self).path@,
            final(self).follow_symlink == old(self).follow_symlink,
    {
        self.stat = attr.stat;
    }

    /// The metadata read.
    pub fn into_inner(self) -> (r: Stat)
        ensures
            r == self.stat,
    {
        self.stat
    }
}

/// `ftruncate` takes a signed size: a size beyond `i64::MAX` is refused.
pub fn truncate_size(size: u64) -> (r: Result<i64, IoError>)
    ensures
        size <= i64::MAX ==> r == Ok::<i64, IoError>(size as i64),
        size > i64::MAX ==> r == Err::<i64, IoError>(IoError::InvalidInput),
{
    if size <= 0x7fff_ffff_ffff_ffffu64 {
        Ok(size as i64)
    } else {
        Err(IoError::InvalidInput)
    }
}

impl<S> Sync<S> {
    /// Without AIO (as on Linux) the sync runs on a thread.
    pub fn pre_submit(&self) -> (r: Decision)
        ensures
            r is Blocking,
    {
        Decision::Blocking
    }
}

} // verus!
