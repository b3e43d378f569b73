use compio_driver::buf_result::Buffer;
use compio_driver::interest::{CurrentDir, Interest, AT_FDCWD};
use compio_driver::op::asyncify::Asyncify;
use compio_driver::buf_result::BufResult;
use compio_driver::op::fs::{FileStat, PathStat, Splice, Sync};
use compio_driver::op::general::{Read, ReadAt, Write};
use compio_driver::op::managed::{ReadManaged, ReadManagedAt, RecvFromManaged, RecvManaged};
use compio_driver::op::managed_multi::{ReadMulti, RecvMsgMulti, RecvMulti};
use compio_driver::op::multishot::AcceptMulti;
use compio_driver::op::socket::{Accept, CreateSocket, Send, Shutdown, ShutdownSocket};
use compio_driver::op::unix::{OpenFile, Pipe, PollOnce, ReadVectoredAt, Unlink};
use compio_driver::op::zerocopy::SendZc;
use compio_driver::sqe::Sqe;
use compio_driver::sys_slice::SysSlice;

#[test]
fn read_and_write_entries() {
    let s = SysSlice::from_parts(0x1000, 64);
    assert_eq!(
        Read::new(3, ()).create_entry(s),
        Sqe::Read { fd: 3, buf: 0x1000, len: 64, offset: None, buf_group: None }
    );
    assert_eq!(
        ReadAt::new(3, 512, ()).create_entry(s),
        Sqe::Read { fd: 3, buf: 0x1000, len: 64, offset: Some(512), buf_group: None }
    );
    assert_eq!(
        Write::new(4, ()).create_entry(s),
        Sqe::Write { fd: 4, buf: 0x1000, len: 64, offset: None }
    );
    assert_eq!(
        ReadVectoredAt::new(5, 8, ()).create_entry(0x2000, 3),
        Sqe::Readv { fd: 5, iovecs: 0x2000, len: 3, offset: Some(8) }
    );
    if usize::BITS > 32 {
        let big = SysSlice::from_parts(0x1000, u32::MAX as usize + 1);
        assert_eq!(
            Read::new(3, ()).create_entry(big),
            Sqe::Read { fd: 3, buf: 0x1000, len: u32::MAX, offset: None, buf_group: None }
        );
    }
}

#[test]
fn file_entries_carry_the_flags() {
    let o = OpenFile::new(CurrentDir, b"f".to_vec(), libc::O_RDONLY, 0o600);
    assert_eq!(
        o.create_entry(0x10),
        Sqe::OpenAt { dirfd: AT_FDCWD, path: 0x10, flags: libc::O_RDONLY | libc::O_CLOEXEC, mode: 0o600 }
    );
    assert_eq!(
        Unlink::new(CurrentDir, b"d".to_vec(), true).create_entry(0x10),
        Sqe::UnlinkAt { dirfd: AT_FDCWD, path: 0x10, flags: libc::AT_REMOVEDIR }
    );
    assert_eq!(
        PathStat::new(CurrentDir, b"p".to_vec(), false).create_entry(0x10, 0x20),
        Sqe::Statx {
            dirfd: AT_FDCWD,
            path: 0x10,
            statxbuf: 0x20,
            flags: libc::AT_EMPTY_PATH | libc::AT_SYMLINK_NOFOLLOW,
            mask: 0x3fff,
        }
    );
    assert_eq!(
        FileStat::new(7).create_entry(0x30, 0x40),
        Sqe::Statx { dirfd: 7, path: 0x30, statxbuf: 0x40, flags: libc::AT_EMPTY_PATH, mask: 0x3fff }
    );
    assert_eq!(Sync::new(7, true).create_entry(), Sqe::Fsync { fd: 7, datasync: true });
    assert_eq!(
        Splice::new(1, -1, 2, 10, 100, 0).create_entry(),
        Sqe::Splice { fd_in: 1, off_in: -1, fd_out: 2, off_out: 10, len: 100, flags: 0 }
    );
    assert_eq!(Pipe::new().create_entry(0x50), Sqe::Pipe { fds: 0x50, flags: libc::O_CLOEXEC as u32 });
    assert_eq!(
        PollOnce::new(9, Interest::Writable).create_entry(),
        Sqe::PollAdd { fd: 9, flags: libc::POLLOUT as u32 }
    );
}

#[test]
fn socket_entries() {
    let c = CreateSocket::new(libc::AF_INET, libc::SOCK_STREAM, 6);
    assert_eq!(
        c.create_entry(),
        Sqe::Socket { domain: libc::AF_INET, socket_type: libc::SOCK_STREAM | libc::SOCK_CLOEXEC, protocol: 6 }
    );
    assert_eq!(
        Accept::new(3).create_entry(0x100, 0x200),
        Sqe::Accept { fd: 3, addr: 0x100, addr_len: 0x200, flags: libc::SOCK_CLOEXEC }
    );
    assert_eq!(
        ShutdownSocket::new(3, Shutdown::Both).create_entry(),
        Sqe::Shutdown { fd: 3, how: libc::SHUT_RDWR }
    );
    let s = SysSlice::from_parts(0x10, 5);
    assert_eq!(
        Send::new(3, (), libc::MSG_NOSIGNAL).create_entry(s),
        Sqe::Send { fd: 3, buf: 0x10, len: 5, flags: libc::MSG_NOSIGNAL }
    );
    let z: SendZc<(), i32, ()> = SendZc::new(3, (), 0);
    assert_eq!(z.create_entry(s), Sqe::SendZc { fd: 3, buf: 0x10, len: 5, flags: 0 });
    assert_eq!(z.create_entry_fallback(s), Sqe::Send { fd: 3, buf: 0x10, len: 5, flags: 0 });
    let m: AcceptMulti<i32, ()> = AcceptMulti::new(3);
    assert_eq!(m.create_entry(), Sqe::AcceptMulti { fd: 3, flags: libc::SOCK_CLOEXEC });
}

#[test]
fn managed_entries_select_buffers() {
    let r = ReadManagedAt::new(3, 64, 7, 4096).ok().unwrap();
    assert_eq!(
        r.create_entry(),
        Sqe::Read { fd: 3, buf: 0, len: 4096, offset: Some(64), buf_group: Some(7) }
    );
    let r = ReadManaged::new(3, 7, 4096).ok().unwrap();
    assert_eq!(
        r.create_entry(),
        Sqe::Read { fd: 3, buf: 0, len: 4096, offset: Some(u64::MAX), buf_group: Some(7) }
    );
    let r = RecvManaged::new(3, 7, 100, 0).ok().unwrap();
    assert_eq!(r.create_entry(), Sqe::Recv { fd: 3, buf: 0, len: 100, flags: 0, buf_group: Some(7) });
    assert_eq!(
        RecvFromManaged::new(3, 7, 100, 0).create_entry(0x80),
        Sqe::RecvMsg { fd: 3, msg: 0x80, flags: 0, buf_group: Some(7) }
    );
    let m: ReadMulti<i32, ()> = ReadMulti::new(3, 7, 256).ok().unwrap();
    assert_eq!(m.create_entry(), Sqe::ReadMulti { fd: 3, len: 256, buf_group: 7, offset: u64::MAX });
    let m: RecvMulti<i32, ()> = RecvMulti::new(3, 7, 256, 0).ok().unwrap();
    assert_eq!(m.create_entry(true), Sqe::RecvMulti { fd: 3, buf_group: 7, flags: 0, len: 256 });
    assert_eq!(
        m.create_entry(false),
        Sqe::Recv { fd: 3, buf: 0, len: 256, flags: 0, buf_group: Some(7) }
    );
    let m: RecvMsgMulti<i32, ()> = RecvMsgMulti::new(3, 7, 16, 0, true, None);
    assert_eq!(m.create_entry(0x90), Sqe::RecvMsgMulti { fd: 3, msg: 0x90, buf_group: 7, flags: 0 });
    let f: RecvMsgMulti<i32, ()> =
        RecvMsgMulti::new(3, 7, 16, 0, false, Some(Buffer::with_room(vec![0; 16])));
    assert_eq!(f.create_entry(0x90), Sqe::RecvMsg { fd: 3, msg: 0x90, flags: 0, buf_group: Some(7) });
}

#[test]
fn blocking_functions_run_on_a_thread() {
    let a: Asyncify<_, ()> = Asyncify::new(|| BufResult(Ok(0), ()));
    assert_eq!(a.create_entry(), Sqe::Blocking);
}
