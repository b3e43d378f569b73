use vstd::prelude::*;

verus! {

/// A raw file descriptor.
pub type RawFd = i32;

/// `AT_FDCWD`: the fd that stands for the current working directory.
pub const AT_FDCWD: RawFd = -100;

/// Extracts raw fds.
pub trait AsRawFd {
    /// The raw fd.
    spec fn raw_fd(&self) -> RawFd;

    /// Extracts the raw fd.
    fn as_raw_fd(&self) -> (r: RawFd)
        ensures
            r == self.raw_fd(),
    ;
}

impl AsRawFd for RawFd {
    open spec fn raw_fd(&self) -> RawFd {
        *self
    }

    fn as_raw_fd(&self) -> (r: RawFd) {
        *self
    }
}

/// A special file descriptor that always refers to the current working
/// directory.
#[derive(Debug, Clone, Copy, PartialEq, Eq, Structural)]
pub struct CurrentDir;

impl AsRawFd for CurrentDir {
    open spec fn raw_fd(&self) -> RawFd {
        AT_FDCWD
    }

    fn as_raw_fd(&self) -> (r: RawFd) {
        AT_FDCWD
    }
}

/// The interest to poll a file descriptor.
#[derive(Debug, Clone, Copy, PartialEq, Eq, Structural)]
pub enum Interest {
    /// Represents a read operation.
    Readable,
    /// Represents a write operation.
    Writable,
}

/// Meta of polling operations.
#[derive(Debug, Clone, Copy, PartialEq, Eq, Structural)]
pub struct WaitArg {
    /// The raw fd of the operation.
    pub fd: RawFd,
    /// The interest to be registered.
    pub interest: Interest,
}

impl WaitArg {
    /// Create a new readable `WaitArg`.
    pub fn readable(fd: RawFd) -> (r: Self)
        ensures
            r == (WaitArg { fd, interest: Interest::Readable }),
    {
        WaitArg { fd, interest: Interest::Readable }
    }

    /// Create a new writable `WaitArg`.
    pub fn writable(fd: RawFd) -> (r: Self)
        ensures
            r == (WaitArg { fd, interest: Interest::Writable }),
    {
        WaitArg { fd, interest: Interest::Writable }
    }
}

/// The readiness event registered for, or reported on, one file descriptor:
/// the key of the operation it belongs to and the directions it covers.
#[derive(Debug, Clone, Copy, PartialEq, Eq, Structural)]
pub struct Event {
    /// The key of the operation.
    pub key: usize,
    /// Readable interest.
    pub readable: bool,
    /// Writable interest.
    pub writable: bool,
}

impl Event {
    /// An event with no interest.
    pub fn none(key: usize) -> (r: Self)
        ensures
            r == (Event { key, readable: false, writable: false }),
    {
        Event { key, readable: false, writable: false }
    }
}

/// Result of deciding how an operation is submitted.
pub enum Decision {
    /// Instant operation, no need to submit
    Completed(usize),
    /// Async operation, needs to submit
    Wait(Vec<WaitArg>),
    /// Blocking operation, needs to be spawned in another thread
    Blocking,
}

impl Decision {
    /// Decide to wait for the given fd with the given interest.
    pub fn wait_for(fd: RawFd, interest: Interest) -> (r: Self)
        ensures
            r matches Decision::Wait(args) && args@ == seq![WaitArg { fd, interest }],
    {
        let mut args: Vec<WaitArg> = Vec::new();
        args.push(WaitArg { fd, interest });
        Decision::Wait(args)
    }

    /// Decide to wait for many fds.
    pub fn wait_for_many(args: Vec<WaitArg>) -> (r: Self)
        ensures
            r matches Decision::Wait(a) && a@ == args@,
    {
        Decision::Wait(args)
    }

    /// Decide to wait for the given fd to be readable.
    pub fn wait_readable(fd: RawFd) -> (r: Self)
        ensures
            r matches Decision::Wait(args) && args@ == seq![WaitArg { fd, interest: Interest::Readable }],
    {
        Self::wait_for(fd, Interest::Readable)
    }

    /// Decide to wait for the given fd to be writable.
    pub fn wait_writable(fd: RawFd) -> (r: Self)
        ensures
            r matches Decision::Wait(args) && args@ == seq![WaitArg { fd, interest: Interest::Writable }],
    {
        Self::wait_for(fd, Interest::Writable)
    }
}

/// The kind of an operation as seen when an event occurs or it is cancelled.
pub enum OpType {
    /// The operation polls these fds.
    Fd(Vec<RawFd>),
}

impl OpType {
    /// Create an [`OpType::Fd`] with one fd.
    pub fn fd(fd: RawFd) -> (r: Self)
        ensures
            r matches OpType::Fd(fds) && fds@ == seq![fd],
    {
        let mut fds: Vec<RawFd> = Vec::new();
        fds.push(fd);
        OpType::Fd(fds)
    }

    /// Create an [`OpType::Fd`] with multiple fds.
    pub fn multi_fd(fds: Vec<RawFd>) -> (r: Self)
        ensures
            r matches OpType::Fd(f) && f@ == fds@,
    {
        OpType::Fd(fds)
    }
}

} // verus!
