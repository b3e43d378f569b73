use vstd::prelude::*;
use crate::interest::{Decision, Interest, RawFd, WaitArg};

verus! {

/// The error of an I/O operation.
#[derive(Debug, Clone, Copy, PartialEq, Eq, Structural)]
pub enum IoError {
    /// An error code of the operating system (`errno`, or a Win32 error).
    Os(i32),
    /// An argument was not valid for the operation.
    InvalidInput,
    /// Bytes were read (this many), but no buffer was selected for them.
    UnexpectedEof(usize),
    /// The driver was built without a backend and supports no operation.
    NoBackend,
    /// Any other error.
    Other,
}

/// The kind of an error, as std classifies I/O errors.
#[derive(Debug, Clone, Copy, PartialEq, Eq, Structural)]
pub enum ErrorKind {
    /// The kind std derives from an OS error code.
    FromCode,
    /// An argument was not valid.
    InvalidInput,
    /// The data ended before it was expected to.
    UnexpectedEof,
    /// Any other error.
    Other,
}

impl IoError {
    /// The kind of the error.
    pub open spec fn kind_of(self) -> ErrorKind {
        match self {
            IoError::Os(_) => ErrorKind::FromCode,
            IoError::InvalidInput => ErrorKind::InvalidInput,
            IoError::UnexpectedEof(_) => ErrorKind::UnexpectedEof,
            IoError::NoBackend => ErrorKind::Other,
            IoError::Other => ErrorKind::Other,
        }
    }

    /// The fixed message of the error; an OS error's message comes from
    /// its code, a short read's names its count, and any other error
    /// keeps the message it came with.
    pub open spec fn message_of(self) -> Option<Seq<char>> {
        match self {
            IoError::InvalidInput => Some("required length too long"@),
            IoError::NoBackend => Some("Stub driver does not support any operations"@),
            _ => None,
        }
    }

    /// The kind of the error.
    pub fn kind(&self) -> (r: ErrorKind)
        ensures
            r == self.kind_of(),
    {
        match self {
            IoError::Os(_) => ErrorKind::FromCode,
            IoError::InvalidInput => ErrorKind::InvalidInput,
            IoError::UnexpectedEof(_) => ErrorKind::UnexpectedEof,
            IoError::NoBackend => ErrorKind::Other,
            IoError::Other => ErrorKind::Other,
        }
    }

    /// The fixed message of the error, if it has one.
    pub fn message(&self) -> (r: Option<&'static str>)
        ensures
            r is Some == self.message_of() is Some,
            r matches Some(m) ==> m@ == self.message_of().unwrap(),
    {
        match self {
            IoError::InvalidInput => Some("required length too long"),
            IoError::NoBackend => Some("Stub driver does not support any operations"),
            _ => None,
        }
    }
}

/// `EAGAIN` (and `EWOULDBLOCK`, the same on Linux).
pub const EAGAIN: i32 = 11;
/// `EINPROGRESS`.
pub const EINPROGRESS: i32 = 115;
/// `ETIMEDOUT`, the error of a cancelled operation.
pub const ETIMEDOUT: i32 = 110;

/// `ERROR_IO_PENDING`.
pub const ERROR_IO_PENDING: u32 = 997;
/// `ERROR_IO_INCOMPLETE`.
pub const ERROR_IO_INCOMPLETE: u32 = 996;
/// `ERROR_NETNAME_DELETED`.
pub const ERROR_NETNAME_DELETED: u32 = 64;
/// `ERROR_HANDLE_EOF`.
pub const ERROR_HANDLE_EOF: u32 = 38;
/// `ERROR_BROKEN_PIPE`.
pub const ERROR_BROKEN_PIPE: u32 = 109;
/// `ERROR_PIPE_CONNECTED`.
pub const ERROR_PIPE_CONNECTED: u32 = 535;
/// `ERROR_PIPE_NOT_CONNECTED`.
pub const ERROR_PIPE_NOT_CONNECTED: u32 = 233;
/// `ERROR_NO_DATA`.
pub const ERROR_NO_DATA: u32 = 232;
/// `ERROR_NOT_FOUND`.
pub const ERROR_NOT_FOUND: u32 = 1168;

/// The progress of an operation: not ready yet, or done with a result.
#[derive(Debug, Clone, Copy)]
pub enum IoPoll {
    Pending,
    Ready(Result<usize, IoError>),
}

/// Whether an error only says that the operation is not ready yet.
pub open spec fn would_block(e: IoError) -> bool {
    e == IoError::Os(EAGAIN) || e == IoError::Os(EINPROGRESS)
}

/// The progress that a non-blocking attempt shows.
pub open spec fn progress_of(res: Result<usize, IoError>) -> IoPoll {
    match res {
        Ok(n) => IoPoll::Ready(Ok(n)),
        Err(e) => if would_block(e) {
            IoPoll::Pending
        } else {
            IoPoll::Ready(Err(e))
        },
    }
}

/// The result of a raw system call: `-1` means failure with `errno`.
pub fn syscall_result(ret: isize, errno: i32) -> (r: Result<usize, IoError>)
    requires
        ret >= -1,
    ensures
        ret == -1 ==> r == Err::<usize, IoError>(IoError::Os(errno)),
        ret != -1 ==> r == Ok::<usize, IoError>(ret as usize),
{
    if ret == -1 {
        Err(IoError::Os(errno))
    } else {
        Ok(ret as usize)
    }
}

/// Whether an error only says that the operation is not ready yet.
pub fn is_would_block(e: &IoError) -> (r: bool)
    ensures
        r == would_block(*e),
{
    match e {
        IoError::Os(code) => *code == EAGAIN || *code == EINPROGRESS,
        _ => false,
    }
}

/// The progress that the result of a non-blocking attempt shows: an error
/// that says "not ready" means the operation is still pending.
pub fn poll_io(res: Result<usize, IoError>) -> (r: IoPoll)
    ensures
        r == progress_of(res),
{
    match res {
        Ok(n) => IoPoll::Ready(Ok(n)),
        Err(e) => if is_would_block(&e) {
            IoPoll::Pending
        } else {
            IoPoll::Ready(Err(e))
        },
    }
}

/// How to go on after a first non-blocking attempt: done when it finished,
/// wait for the fd when it would block, fail on any other error.
pub fn decide(fd: RawFd, interest: Interest, res: Result<usize, IoError>) -> (r: Result<
    Decision,
    IoError,
>)
    ensures
        progress_of(res) == IoPoll::Pending ==> (r matches Ok(Decision::Wait(args)) && args@ == seq![
            WaitArg { fd, interest },
        ]),
        progress_of(res) matches IoPoll::Ready(Ok(n)) ==> (r matches Ok(Decision::Completed(m))
            && m == n),
        progress_of(res) matches IoPoll::Ready(Err(e)) ==> (r matches Err(e2) && e2 == e),
{
    match poll_io(res) {
        IoPoll::Ready(Ok(n)) => Ok(Decision::Completed(n)),
        IoPoll::Ready(Err(e)) => Err(e),
        IoPoll::Pending => Ok(Decision::wait_for(fd, interest)),
    }
}

/// The result of a connection attempt, from the socket's pending error
/// (`SO_ERROR`): none means connected.
pub fn connect_result(so_error: i32) -> (r: IoPoll)
    ensures
        so_error == 0 ==> r == IoPoll::Ready(Ok(0)),
        so_error != 0 ==> r == IoPoll::Ready(Err(IoError::Os(so_error))),
{
    if so_error == 0 {
        IoPoll::Ready(Ok(0))
    } else {
        IoPoll::Ready(Err(IoError::Os(so_error)))
    }
}

/// Whether a Win32 error still means success with what was transferred.
pub open spec fn win_benign(error: u32) -> bool {
    error == ERROR_IO_INCOMPLETE || error == ERROR_NETNAME_DELETED || error == ERROR_HANDLE_EOF
        || error == ERROR_BROKEN_PIPE || error == ERROR_PIPE_CONNECTED || error
        == ERROR_PIPE_NOT_CONNECTED || error == ERROR_NO_DATA
}

/// The progress that the last Win32 error shows.
pub open spec fn win_progress(error: u32, transferred: u32) -> IoPoll {
    if error == ERROR_IO_PENDING {
        IoPoll::Pending
    } else if win_benign(error) {
        IoPoll::Ready(Ok(transferred as usize))
    } else {
        IoPoll::Ready(Err(IoError::Os(error as i32)))
    }
}

/// The progress of an overlapped call that failed with `error`: pending
/// while the I/O runs, done with what was transferred for the errors that
/// only mean end of data or a closed pipe, failed otherwise.
pub fn winapi_result(error: u32, transferred: u32) -> (r: IoPoll)
    requires
        error != 0,
    ensures
        r == win_progress(error, transferred),
{
    if error == ERROR_IO_PENDING {
        IoPoll::Pending
    } else if error == ERROR_IO_INCOMPLETE || error == ERROR_NETNAME_DELETED || error
        == ERROR_HANDLE_EOF || error == ERROR_BROKEN_PIPE || error == ERROR_PIPE_CONNECTED
        || error == ERROR_PIPE_NOT_CONNECTED || error == ERROR_NO_DATA {
        IoPoll::Ready(Ok(transferred as usize))
    } else {
        IoPoll::Ready(Err(IoError::Os(error as i32)))
    }
}

/// The progress of a Win32 call that returns zero on failure.
pub fn win32_result(res: i32, transferred: u32, last_error: u32) -> (r: IoPoll)
    requires
        res == 0 ==> last_error != 0,
    ensures
        res == 0 ==> r == win_progress(last_error, transferred),
        res != 0 ==> r == IoPoll::Ready(Ok(transferred as usize)),
{
    if res == 0 {
        winapi_result(last_error, transferred)
    } else {
        IoPoll::Ready(Ok(transferred as usize))
    }
}

/// The progress of a Winsock call that returns non-zero on failure.
pub fn winsock_result(res: i32, transferred: u32, last_error: u32) -> (r: IoPoll)
    requires
        res != 0 ==> last_error != 0,
    ensures
        res != 0 ==> r == win_progress(last_error, transferred),
        res == 0 ==> r == IoPoll::Ready(Ok(transferred as usize)),
{
    if res != 0 {
        winapi_result(last_error, transferred)
    } else {
        IoPoll::Ready(Ok(transferred as usize))
    }
}

/// The result of cancelling overlapped I/O: nothing to cancel is success.
pub fn cancel_result(res: Result<(), IoError>) -> (r: Result<(), IoError>)
    ensures
        res matches Err(IoError::Os(c)) && c == ERROR_NOT_FOUND as i32 ==> r is Ok,
        !(res matches Err(IoError::Os(c)) && c == ERROR_NOT_FOUND as i32) ==> r == res,
{
    let not_found = match res {
        Err(IoError::Os(c)) => c == ERROR_NOT_FOUND as i32,
        _ => false,
    };
    if not_found {
        Ok(())
    } else {
        res
    }
}

/// The error of every operation of the stub driver, which supports none.
pub fn stub_error() -> (r: IoError)
    ensures
        r == IoError::NoBackend,
        r.kind_of() == ErrorKind::Other,
        r.message_of() == Some("Stub driver does not support any operations"@),
{
    IoError::NoBackend
}

/// The result that a cancelled operation completes with.
pub fn cancelled_result() -> (r: Result<usize, IoError>)
    ensures
        r == Err::<usize, IoError>(IoError::Os(ETIMEDOUT)),
{
    Err(IoError::Os(ETIMEDOUT))
}

/// The outcome of waiting for readiness events: a wait with a timeout that
/// saw no event timed out.
pub fn wait_result(events_empty: bool, has_timeout: bool) -> (r: Result<(), IoError>)
    ensures
        events_empty && has_timeout ==> r == Err::<(), IoError>(IoError::Os(ETIMEDOUT)),
        !(events_empty && has_timeout) ==> r is Ok,
{
    if events_empty && has_timeout {
        Err(IoError::Os(ETIMEDOUT))
    } else {
        Ok(())
    }
}

/// Retrying a non-blocking attempt that would block never loses a result:
/// a finished attempt is ready with exactly its result, and only "not
/// ready" errors are pending.
pub proof fn law_progress(res: Result<usize, IoError>)
    ensures
        res is Ok ==> progress_of(res) == IoPoll::Ready(res),
        progress_of(res) == IoPoll::Pending <==> (res matches Err(e) && would_block(e)),
        progress_of(res) != IoPoll::Pending ==> progress_of(res) == IoPoll::Ready(res),
{
}

} // verus!
