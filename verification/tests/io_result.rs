use windows_sys::Win32::Foundation as f;
use compio_driver::interest::{Decision, Interest};
use compio_driver::io_result::{
    ErrorKind,
    cancel_result, cancelled_result, connect_result, decide, is_would_block, poll_io, stub_error,
    syscall_result, wait_result, win32_result, winapi_result, winsock_result, IoError, IoPoll, EAGAIN,
    EINPROGRESS, ERROR_BROKEN_PIPE, ERROR_HANDLE_EOF, ERROR_IO_INCOMPLETE, ERROR_IO_PENDING,
    ERROR_NETNAME_DELETED, ERROR_NOT_FOUND, ERROR_NO_DATA, ERROR_PIPE_CONNECTED,
    ERROR_PIPE_NOT_CONNECTED, ETIMEDOUT,
};

fn is_pending(p: IoPoll) -> bool {
    matches!(p, IoPoll::Pending)
}

fn ready(p: IoPoll) -> Result<usize, IoError> {
    match p {
        IoPoll::Ready(r) => r,
        IoPoll::Pending => panic!("still pending"),
    }
}

#[test]
fn errno_constants_match_libc() {
    assert_eq!(EAGAIN, libc::EAGAIN);
    assert_eq!(EAGAIN, libc::EWOULDBLOCK);
    assert_eq!(EINPROGRESS, libc::EINPROGRESS);
    assert_eq!(ETIMEDOUT, libc::ETIMEDOUT);
}

#[test]
fn win32_constants_match_windows_sys() {
    assert_eq!(ERROR_IO_PENDING, f::ERROR_IO_PENDING);
    assert_eq!(ERROR_IO_INCOMPLETE, f::ERROR_IO_INCOMPLETE);
    assert_eq!(ERROR_NETNAME_DELETED, f::ERROR_NETNAME_DELETED);
    assert_eq!(ERROR_HANDLE_EOF, f::ERROR_HANDLE_EOF);
    assert_eq!(ERROR_BROKEN_PIPE, f::ERROR_BROKEN_PIPE);
    assert_eq!(ERROR_PIPE_CONNECTED, f::ERROR_PIPE_CONNECTED);
    assert_eq!(ERROR_PIPE_NOT_CONNECTED, f::ERROR_PIPE_NOT_CONNECTED);
    assert_eq!(ERROR_NO_DATA, f::ERROR_NO_DATA);
    assert_eq!(ERROR_NOT_FOUND, f::ERROR_NOT_FOUND);
}

#[test]
fn syscall_result_maps_minus_one_to_errno() {
    assert_eq!(syscall_result(-1, libc::EBADF), Err(IoError::Os(libc::EBADF)));
    assert_eq!(syscall_result(0, 5), Ok(0));
    assert_eq!(syscall_result(42, 5), Ok(42));
}

#[test]
fn would_block_errors() {
    assert!(is_would_block(&IoError::Os(EAGAIN)));
    assert!(is_would_block(&IoError::Os(EINPROGRESS)));
    assert!(!is_would_block(&IoError::Os(libc::EBADF)));
    assert!(!is_would_block(&IoError::Other));
}

#[test]
fn poll_io_pending_only_on_would_block() {
    assert!(is_pending(poll_io(Err(IoError::Os(EAGAIN)))));
    assert_eq!(ready(poll_io(Ok(7))), Ok(7));
    assert_eq!(ready(poll_io(Err(IoError::Os(libc::EPIPE)))), Err(IoError::Os(libc::EPIPE)));
}

#[test]
fn decide_waits_on_would_block() {
    match decide(3, Interest::Readable, Err(IoError::Os(EAGAIN))) {
        Ok(Decision::Wait(args)) => {
            assert_eq!(args.len(), 1);
            assert_eq!(args[0].fd, 3);
            assert!(matches!(args[0].interest, Interest::Readable));
        }
        _ => panic!("expected a wait"),
    }
    assert!(matches!(decide(3, Interest::Writable, Ok(9)), Ok(Decision::Completed(9))));
    assert!(matches!(
        decide(3, Interest::Writable, Err(IoError::Os(libc::ECONNRESET))),
        Err(IoError::Os(e)) if e == libc::ECONNRESET
    ));
}

#[test]
fn connect_result_reads_so_error() {
    assert_eq!(ready(connect_result(0)), Ok(0));
    assert_eq!(ready(connect_result(libc::ECONNREFUSED)), Err(IoError::Os(libc::ECONNREFUSED)));
}

#[test]
fn winapi_result_benign_errors_succeed() {
    assert!(is_pending(winapi_result(ERROR_IO_PENDING, 5)));
    for e in [
        ERROR_IO_INCOMPLETE,
        ERROR_NETNAME_DELETED,
        ERROR_HANDLE_EOF,
        ERROR_BROKEN_PIPE,
        ERROR_PIPE_CONNECTED,
        ERROR_PIPE_NOT_CONNECTED,
        ERROR_NO_DATA,
    ] {
        assert_eq!(ready(winapi_result(e, 12)), Ok(12));
    }
    assert_eq!(ready(winapi_result(5, 12)), Err(IoError::Os(5)));
}

#[test]
fn win32_and_winsock_results() {
    assert_eq!(ready(win32_result(1, 8, 0)), Ok(8));
    assert!(is_pending(win32_result(0, 8, ERROR_IO_PENDING)));
    assert_eq!(ready(win32_result(0, 8, 87)), Err(IoError::Os(87)));
    assert_eq!(ready(winsock_result(0, 8, 0)), Ok(8));
    assert!(is_pending(winsock_result(-1, 8, ERROR_IO_PENDING)));
    assert_eq!(ready(winsock_result(-1, 8, ERROR_HANDLE_EOF)), Ok(8));
    assert_eq!(ready(winsock_result(-1, 8, 10054)), Err(IoError::Os(10054)));
}

#[test]
fn cancel_of_nothing_succeeds() {
    assert_eq!(cancel_result(Err(IoError::Os(ERROR_NOT_FOUND as i32))), Ok(()));
    assert_eq!(cancel_result(Ok(())), Ok(()));
    assert_eq!(cancel_result(Err(IoError::Os(6))), Err(IoError::Os(6)));
}

#[test]
fn stub_and_cancelled_errors() {
    assert_eq!(stub_error(), IoError::NoBackend);
    assert_eq!(cancelled_result(), Err(IoError::Os(libc::ETIMEDOUT)));
}

#[test]
fn wait_times_out_only_without_events() {
    assert_eq!(wait_result(true, true), Err(IoError::Os(libc::ETIMEDOUT)));
    assert_eq!(wait_result(true, false), Ok(()));
    assert_eq!(wait_result(false, true), Ok(()));
}

#[test]
fn stub_error_is_other_with_its_message() {
    let e = stub_error();
    assert_eq!(e.kind(), ErrorKind::Other);
    assert_eq!(e.message(), Some("Stub driver does not support any operations"));
    assert_eq!(IoError::Os(5).message(), None);
    assert_eq!(IoError::Os(5).kind(), ErrorKind::FromCode);
    assert_eq!(IoError::InvalidInput.message(), Some("required length too long"));
    assert_eq!(IoError::UnexpectedEof(3).kind(), ErrorKind::UnexpectedEof);
}
