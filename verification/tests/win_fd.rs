use compio_driver::win_fd::{AsFd, AsRawFd, BorrowedFd, OwnedFd};

#[test]
fn borrowing_keeps_kind_and_value() {
    let f = OwnedFd::File(0x40);
    assert_eq!(f.as_fd(), BorrowedFd::File(0x40));
    assert_eq!(f.as_raw_fd(), 0x40);
    let s = OwnedFd::Socket(0x120);
    assert_eq!(s.as_fd(), BorrowedFd::Socket(0x120));
    assert_eq!(s.as_fd().as_raw_fd(), 0x120);
    let b = BorrowedFd::File(7);
    assert_eq!(b.as_fd(), b);
    assert_eq!(7usize.as_raw_fd(), 7);
}
