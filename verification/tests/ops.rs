use compio_driver::buf_result::{BufResult, Buffer, TakeBuffer};
use compio_driver::interest::{CurrentDir, Decision, Interest, OpType, AT_FDCWD};
use compio_driver::io_result::IoError;
use compio_driver::op::asyncify::{Asyncify, AsyncifyFd, AsyncifyFd2};
use compio_driver::op::fs::{
    new_zeroed_stat, truncate_size, PathStat, Splice, Sync, SyncCall, SPLICE_F_NONBLOCK,
};
use compio_driver::op::managed::{managed_len, ReadManaged, ReadManagedAt, RecvFromManaged};
use compio_driver::op::multishot::{AcceptMulti, AcceptMultishotResult};
use compio_driver::op::socket::{
    copy_addr_from, received_len, storage_addr, zeroed_storage, Accept, CreateSocket,
    RecvFromHeader, Shutdown, ShutdownSocket, SHUT_RD, SHUT_RDWR, SHUT_WR, SOCK_CLOEXEC,
    SOCK_NONBLOCK,
};
use compio_driver::op::general::entry_len;
use compio_driver::op::unix::{
    PollOnce, POLLIN, POLLOUT, with_cloexec, with_nonblock, OpenFile, Pipe, TruncateFile, Unlink, AT_REMOVEDIR, FD_CLOEXEC,
    O_CLOEXEC, O_NONBLOCK,
};
use compio_driver::op::zerocopy::SendZc;
use compio_driver::recv_msg::NAME_LEN;
use compio_driver::stat::{AT_EMPTY_PATH, AT_SYMLINK_NOFOLLOW};

#[test]
fn unix_constants_match_libc() {
    assert_eq!(O_CLOEXEC, libc::O_CLOEXEC);
    assert_eq!(O_NONBLOCK, libc::O_NONBLOCK);
    assert_eq!(FD_CLOEXEC, libc::FD_CLOEXEC);
    assert_eq!(AT_REMOVEDIR, libc::AT_REMOVEDIR);
    assert_eq!(AT_FDCWD, libc::AT_FDCWD);
    assert_eq!(SOCK_NONBLOCK, libc::SOCK_NONBLOCK);
    assert_eq!(SOCK_CLOEXEC, libc::SOCK_CLOEXEC);
    assert_eq!(SHUT_RD, libc::SHUT_RD);
    assert_eq!(SHUT_WR, libc::SHUT_WR);
    assert_eq!(SHUT_RDWR, libc::SHUT_RDWR);
    assert_eq!(SPLICE_F_NONBLOCK, libc::SPLICE_F_NONBLOCK);
    assert_eq!(NAME_LEN, std::mem::size_of::<libc::sockaddr_storage>());
}

#[test]
fn splice_offsets_and_polling() {
    let s = Splice::new(3, -1, 4, 100, 64, 1);
    assert_eq!(s.offsets(), (None, Some(100)));
    assert_eq!(s.nonblocking_flags(), 1 | SPLICE_F_NONBLOCK);
    match s.pre_submit() {
        Decision::Wait(args) => {
            assert_eq!(args.len(), 2);
            assert_eq!((args[0].fd, args[0].interest), (3, Interest::Readable));
            assert_eq!((args[1].fd, args[1].interest), (4, Interest::Writable));
        }
        _ => panic!("expected a wait"),
    }
    match s.op_type() {
        OpType::Fd(fds) => assert_eq!(fds, vec![3, 4]),
    }
    assert_eq!(s.into_inner(), (3, 4));
    assert_eq!(Splice::new(1, 0, 2, -5, 1, 0).offsets(), (Some(0), None));
}

#[test]
fn sync_picks_call() {
    assert_eq!(Sync::new(3, true).call(), SyncCall::Fdatasync);
    assert_eq!(Sync::new(3, false).call(), SyncCall::Fsync);
}

#[test]
fn truncate_refuses_sizes_beyond_i64() {
    assert_eq!(truncate_size(10), Ok(10));
    assert_eq!(truncate_size(i64::MAX as u64), Ok(i64::MAX));
    assert_eq!(truncate_size(i64::MAX as u64 + 1), Err(IoError::InvalidInput));
    assert_eq!(TruncateFile::new(3, u64::MAX).call_size(), Err(IoError::InvalidInput));
    assert_eq!(TruncateFile::new(3, 4096).call_size(), Ok(4096));
}

#[test]
fn path_stat_flags() {
    let p = PathStat::new(CurrentDir, b"a".to_vec(), true);
    assert_eq!(p.flags(), AT_EMPTY_PATH);
    let q = PathStat::new(CurrentDir, b"a".to_vec(), false);
    assert_eq!(q.flags(), AT_EMPTY_PATH | AT_SYMLINK_NOFOLLOW);
    assert_eq!(q.into_inner(), new_zeroed_stat());
}

#[test]
fn open_and_unlink_flags() {
    let mut o = OpenFile::new(CurrentDir, b"f".to_vec(), libc::O_RDONLY, 0o644);
    assert_eq!(o.open_flags(), libc::O_RDONLY | libc::O_CLOEXEC);
    o.set_result(&Err(IoError::Os(libc::ENOENT)));
    assert_eq!(o.opened_fd, None);
    o.set_result(&Ok(7));
    assert_eq!(o.into_inner(), 7);
    assert_eq!(Unlink::new(CurrentDir, b"d".to_vec(), true).unlink_flags(), libc::AT_REMOVEDIR);
    assert_eq!(Unlink::new(CurrentDir, b"f".to_vec(), false).unlink_flags(), 0);
}

#[test]
fn pipe_and_fd_flags() {
    let mut p = Pipe::new();
    assert_eq!(Pipe::pipe_flags(), libc::O_CLOEXEC | libc::O_NONBLOCK);
    p.set_fds(5, 6);
    assert_eq!(p.into_inner(), (5, 6));
    assert_eq!(with_cloexec(0), libc::FD_CLOEXEC);
    assert_eq!(with_nonblock(libc::O_APPEND), libc::O_APPEND | libc::O_NONBLOCK);
}

#[test]
fn socket_flags_and_shutdown() {
    let mut c = CreateSocket::new(libc::AF_INET, libc::SOCK_STREAM, 0);
    assert_eq!(c.protocol, None);
    assert_eq!(c.socket_flags(), libc::SOCK_STREAM | libc::SOCK_CLOEXEC | libc::SOCK_NONBLOCK);
    c.set_opened(9);
    assert_eq!(c.into_inner(), 9);
    assert_eq!(CreateSocket::new(libc::AF_INET, libc::SOCK_DGRAM, 17).protocol, Some(17));
    assert_eq!(ShutdownSocket::new(3, Shutdown::Read).how(), libc::SHUT_RD);
    assert_eq!(ShutdownSocket::new(3, Shutdown::Write).how(), libc::SHUT_WR);
    assert_eq!(ShutdownSocket::new(3, Shutdown::Both).how(), libc::SHUT_RDWR);
}

#[test]
fn address_storage_round_trip() {
    let mut storage = zeroed_storage();
    assert_eq!(storage.len(), NAME_LEN);
    assert!(storage.iter().all(|b| *b == 0));
    let mut len = 0u32;
    copy_addr_from(&mut storage, &mut len, Some(vec![2, 0, 0x1f, 0x90, 127, 0, 0, 1]));
    assert_eq!(len, 8);
    assert_eq!(storage_addr(&storage, len), Some(vec![2, 0, 0x1f, 0x90, 127, 0, 0, 1]));
    assert_eq!(storage[8], 0);
    copy_addr_from(&mut storage, &mut len, None);
    assert_eq!(len, 8);
    assert_eq!(storage_addr(&storage, 0), None);
}

#[test]
fn recv_from_header_address() {
    let mut h = RecvFromHeader::new(3, 0);
    assert_eq!(h.name_len as usize, NAME_LEN);
    h.set_addr(Some(vec![1, 2, 3]));
    assert_eq!(h.into_addr(), Some(vec![1, 2, 3]));
    let mut h = RecvFromHeader::new(3, 0);
    h.name_len = 0;
    assert_eq!(h.into_addr(), None);
}

#[test]
fn received_len_is_capped_by_buffer() {
    assert_eq!(received_len(5, 10), 5);
    assert_eq!(received_len(15, 10), 10);
}

#[test]
fn accept_keeps_fd_and_peer() {
    let mut a = Accept::new(3);
    a.set_result(&Ok(11));
    a.addr_len = 4;
    a.buffer[0] = 10;
    let (fd, addr) = a.into_inner();
    assert_eq!(fd, 11);
    assert_eq!(addr, vec![10, 0, 0, 0]);
}

#[test]
fn accept_multi_is_fifo() {
    let mut m: AcceptMulti<i32, u8> = AcceptMulti::new(3);
    assert!(m.pop_multishot().is_none());
    m.push_multishot(Ok(20), 1);
    m.push_multishot(Err(IoError::Os(libc::EMFILE)), 2);
    m.push_multishot(Ok(21), 3);
    let BufResult(r, e) = m.pop_multishot().unwrap();
    assert_eq!((r, e), (Ok(20), 1));
    let BufResult(r, e) = m.pop_multishot().unwrap();
    assert_eq!((r, e), (Err(IoError::Os(libc::EMFILE)), 2));
    let BufResult(r, e) = m.pop_multishot().unwrap();
    assert_eq!((r, e), (Ok(21), 3));
    assert!(m.pop_multishot().is_none());
    m.set_result(&Ok(30));
    assert_eq!(m.into_inner(), 30);
}

#[test]
fn accept_multishot_result_round_trip() {
    let BufResult(r, e) = AcceptMultishotResult::new(Ok(42), "x").into_result();
    assert_eq!((r, e), (Ok(42), "x"));
}

#[test]
fn zerocopy_keeps_last_completion() {
    let mut z: SendZc<Vec<u8>, i32, u8> = SendZc::new(3, vec![1, 2], 0);
    assert!(z.pop_multishot().is_none());
    z.push_multishot(Ok(1), 1);
    z.push_multishot(Ok(2), 2);
    let BufResult(r, e) = z.pop_multishot().unwrap();
    assert_eq!((r, e), (Ok(2), 2));
    assert!(z.pop_multishot().is_none());
    assert_eq!(z.into_inner(), vec![1, 2]);
}

#[test]
fn managed_lengths_fit_u32() {
    assert_eq!(managed_len(4096), Ok(4096));
    assert_eq!(managed_len(u32::MAX as usize), Ok(u32::MAX));
    if usize::BITS > 32 {
        assert_eq!(managed_len(u32::MAX as usize + 1), Err(IoError::InvalidInput));
        assert!(matches!(ReadManaged::new(3, 0, u32::MAX as usize + 1), Err(IoError::InvalidInput)));
    }
    let mut r = ReadManagedAt::new(3, 0, 1, 16).ok().unwrap();
    assert!(r.buffer.is_none());
    r.set_result(Some(Buffer::from_vec(vec![1, 2])));
    let b = r.take_buffer().unwrap();
    assert_eq!(b.as_init(), &[1, 2]);
}

#[test]
fn recv_from_managed_gives_address() {
    let mut r = RecvFromManaged::new(3, 1, 16, 0);
    r.addr[0] = 2;
    r.addr[1] = 0;
    r.set_result(2, Some(Buffer::from_vec(vec![7])));
    let (b, addr) = r.take_buffer().unwrap();
    assert_eq!(b.as_init(), &[7]);
    assert_eq!(addr, Some(vec![2, 0]));
    let r2: RecvFromManaged<i32> = RecvFromManaged::new(3, 1, 16, 0);
    assert!(r2.take_buffer().is_none());
}

#[test]
fn asyncify_runs_once_and_keeps_data() {
    let mut a = Asyncify::new(|| BufResult(Ok(5), "done"));
    assert_eq!(a.call_blocking(), Ok(5));
    assert_eq!(a.into_inner(), "done");
    let mut b = AsyncifyFd::new(7, |fd: &i32| BufResult(Ok(*fd as usize), *fd + 1));
    assert_eq!(b.call_blocking(), Ok(7));
    assert_eq!(b.into_inner(), 8);
    let mut c = AsyncifyFd2::new(1, 2, |x: &i32, y: &i32| BufResult(Err(IoError::Other), *x + *y));
    assert_eq!(c.call_blocking(), Err(IoError::Other));
    assert_eq!(c.into_inner(), 3);
}

#[test]
fn poll_once_flags_match_libc() {
    assert_eq!(POLLIN, libc::POLLIN);
    assert_eq!(POLLOUT, libc::POLLOUT);
    assert_eq!(PollOnce::new(3, Interest::Readable).poll_flags(), libc::POLLIN);
    assert_eq!(PollOnce::new(3, Interest::Writable).poll_flags(), libc::POLLOUT);
}

#[test]
fn entry_len_saturates() {
    assert_eq!(entry_len(0), 0);
    assert_eq!(entry_len(4096), 4096);
    assert_eq!(entry_len(u32::MAX as usize), u32::MAX);
    if usize::BITS > 32 {
        assert_eq!(entry_len(u32::MAX as usize + 7), u32::MAX);
    }
}
