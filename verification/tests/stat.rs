use compio_driver::stat::{
    stat_call, stat_to_statx, statx_created, statx_flags, statx_mask, statx_to_attr, statx_to_stat, FileAttr, Stat,
    StatCall, Statx, StatxTimestamp, AT_EMPTY_PATH, AT_SYMLINK_NOFOLLOW,
};

fn ts(s: i64, n: u32) -> StatxTimestamp {
    StatxTimestamp { tv_sec: s, tv_nsec: n }
}

fn sample(mask: u32) -> Statx {
    Statx {
        stx_mask: mask,
        stx_blksize: 4096,
        stx_nlink: 2,
        stx_uid: 1000,
        stx_gid: 100,
        stx_mode: 0o100644,
        stx_ino: 77,
        stx_size: 1234,
        stx_blocks: 8,
        stx_atime: ts(10, 1),
        stx_btime: ts(5, 2),
        stx_ctime: ts(20, 3),
        stx_mtime: ts(30, 4),
        stx_rdev_major: 0,
        stx_rdev_minor: 0,
        stx_dev_major: 8,
        stx_dev_minor: 1,
    }
}

#[test]
fn statx_converts_to_stat() {
    let s = statx_to_stat(sample(0x7ff));
    assert_eq!(s.st_dev, libc::makedev(8, 1));
    assert_eq!(s.st_dev, 0x801);
    assert_eq!(s.st_ino, 77);
    assert_eq!(s.st_nlink, 2);
    assert_eq!(s.st_mode, 0o100644);
    assert_eq!(s.st_size, 1234);
    assert_eq!(s.st_blksize, 4096);
    assert_eq!(s.st_blocks, 8);
    assert_eq!((s.st_atime, s.st_atime_nsec), (10, 1));
    assert_eq!((s.st_mtime, s.st_mtime_nsec), (30, 4));
    assert_eq!((s.st_ctime, s.st_ctime_nsec), (20, 3));
}

#[test]
fn large_device_numbers() {
    let mut x = sample(0);
    x.stx_dev_major = 0x12345;
    x.stx_dev_minor = 0x6789a;
    assert_eq!(statx_to_stat(x).st_dev, libc::makedev(0x12345, 0x6789a));
}

#[test]
fn birth_time_only_when_reported() {
    assert_eq!(statx_created(&sample(0x800)), Some((5, 2)));
    assert_eq!(statx_created(&sample(0x7ff)), None);
    let a = statx_to_attr(sample(0xfff));
    assert_eq!(a.created, Some((5, 2)));
    assert_eq!(a.stat, statx_to_stat(sample(0xfff)));
    let b = FileAttr::from_stat(a.stat);
    assert_eq!(b.created, None);
}

#[test]
fn statx_mask_and_flags() {
    assert_eq!(statx_mask(), 0x3fff);
    let all = rustix::fs::StatxFlags::ALL
        .union(rustix::fs::StatxFlags::MNT_ID)
        .union(rustix::fs::StatxFlags::DIOALIGN);
    assert_eq!(statx_mask(), all.bits());
    assert_eq!(statx_flags(true), libc::AT_EMPTY_PATH as u32);
    assert_eq!(statx_flags(false), (libc::AT_EMPTY_PATH | libc::AT_SYMLINK_NOFOLLOW) as u32);
    assert_eq!(AT_EMPTY_PATH, libc::AT_EMPTY_PATH as u32);
    assert_eq!(AT_SYMLINK_NOFOLLOW, libc::AT_SYMLINK_NOFOLLOW as u32);
}

#[test]
fn stat_call_choice() {
    assert_eq!(stat_call(true, false), StatCall::Fstat);
    assert_eq!(stat_call(false, true), StatCall::Statat(0));
    assert_eq!(stat_call(false, false), StatCall::Statat(AT_SYMLINK_NOFOLLOW));
}

#[test]
fn zeroed_stat_is_default() {
    let s: Stat = compio_driver::op::fs::new_zeroed_stat();
    assert_eq!(s.st_size, 0);
}

#[test]
fn stat_converts_back_to_statx() {
    let mut x = sample(0x7ff);
    x.stx_dev_major = 0x12345;
    x.stx_dev_minor = 0x6789a;
    x.stx_rdev_major = 4;
    x.stx_rdev_minor = 64;
    let st = statx_to_stat(x);
    let y = stat_to_statx(st);
    assert_eq!((y.stx_dev_major, y.stx_dev_minor), (0x12345, 0x6789a));
    assert_eq!(y.stx_dev_major, libc::major(st.st_dev));
    assert_eq!(y.stx_dev_minor, libc::minor(st.st_dev));
    assert_eq!((y.stx_rdev_major, y.stx_rdev_minor), (4, 64));
    assert_eq!((y.stx_ino, y.stx_nlink, y.stx_mode), (77, 2, 0o100644));
    assert_eq!((y.stx_size, y.stx_blksize, y.stx_blocks), (1234, 4096, 8));
    assert_eq!(y.stx_atime, ts(10, 1));
    assert_eq!(y.stx_mtime, ts(30, 4));
    assert_eq!(y.stx_btime, ts(20, 3));
    assert_eq!(y.stx_mask, 0);
}
