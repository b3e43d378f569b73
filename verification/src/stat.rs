use vstd::prelude::*;

verus! {

/// A `statx` timestamp.
#[derive(Debug, Clone, Copy, PartialEq, Eq, Structural)]
pub struct StatxTimestamp {
    /// Seconds.
    pub tv_sec: i64,
    /// Nanoseconds.
    pub tv_nsec: u32,
}

/// The fields of a `statx` result that file metadata is built from.
#[derive(Debug, Clone, Copy, PartialEq, Eq, Structural)]
pub struct Statx {
    pub stx_mask: u32,
    pub stx_blksize: u32,
    pub stx_nlink: u32,
    pub stx_uid: u32,
    pub stx_gid: u32,
    pub stx_mode: u16,
    pub stx_ino: u64,
    pub stx_size: u64,
    pub stx_blocks: u64,
    pub stx_atime: StatxTimestamp,
    pub stx_btime: StatxTimestamp,
    pub stx_ctime: StatxTimestamp,
    pub stx_mtime: StatxTimestamp,
    pub stx_rdev_major: u32,
    pub stx_rdev_minor: u32,
    pub stx_dev_major: u32,
    pub stx_dev_minor: u32,
}

/// The fields of a `stat` result (64-bit Linux layout).
#[derive(Debug, Clone, Copy, PartialEq, Eq, Structural)]
pub struct Stat {
    pub st_dev: u64,
    pub st_ino: u64,
    pub st_nlink: u64,
    pub st_mode: u32,
    pub st_uid: u32,
    pub st_gid: u32,
    pub st_rdev: u64,
    pub st_size: i64,
    pub st_blksize: i64,
    pub st_blocks: i64,
    pub st_atime: i64,
    pub st_atime_nsec: i64,
    pub st_mtime: i64,
    pub st_mtime_nsec: i64,
    pub st_ctime: i64,
    pub st_ctime_nsec: i64,
}

/// File metadata returned by the stat operations: the `stat` result and
/// the creation (birth) time as `(seconds, nanoseconds)`, when reported.
#[derive(Debug, Clone, Copy)]
pub struct FileAttr {
    /// The raw `stat` result.
    pub stat: Stat,
    /// Creation time, or `None` when the platform or filesystem does not
    /// report it.
    pub created: Option<(i64, i64)>,
}

/// `AT_EMPTY_PATH`: operate on the fd itself when the path is empty.
pub const AT_EMPTY_PATH: u32 = 0x1000;
/// `AT_SYMLINK_NOFOLLOW`: do not follow a final symbolic link.
pub const AT_SYMLINK_NOFOLLOW: u32 = 0x100;

/// The `statx` fields asked for: every basic field, the birth time, the
/// mount id and the direct I/O alignment.
pub fn statx_mask() -> (r: u32)
    ensures
        r == 0x3fff,
{
    0x3fff
}

/// The device number for a major and minor number (glibc encoding).
pub open spec fn dev_of(major: u32, minor: u32) -> u64 {
    let ma = major as u64;
    let mi = minor as u64;
    ((ma & 0x00000fff) << 8u64) | ((ma & 0xfffff000) << 32u64) | ((mi & 0x000000ff) << 0u64) | ((
    mi & 0xffffff00) << 12u64)
}

/// `libc::makedev`: the device number for a major and a minor number.
#[verifier::external_body]
fn makedev(major: u32, minor: u32) -> (r: u64)
    ensures
        r == dev_of(major, minor),
{
    libc::makedev(major, minor)
}

/// The major number of a device number (glibc encoding).
pub open spec fn major_of(dev: u64) -> u32 {
    (((dev & 0x00000000000fff00) >> 8u64) | ((dev & 0xfffff00000000000) >> 32u64)) as u32
}

/// The minor number of a device number (glibc encoding).
pub open spec fn minor_of(dev: u64) -> u32 {
    (((dev & 0x00000000000000ff) >> 0u64) | ((dev & 0x00000ffffff00000) >> 12u64)) as u32
}

/// `libc::major`: the major number of a device number.
#[verifier::external_body]
fn dev_major(dev: u64) -> (r: u32)
    ensures
        r == major_of(dev),
{
    libc::major(dev)
}

/// `libc::minor`: the minor number of a device number.
#[verifier::external_body]
fn dev_minor(dev: u64) -> (r: u32)
    ensures
        r == minor_of(dev),
{
    libc::minor(dev)
}

/// The `STATX_BTIME` bit of `statx` masks, from rustix.
#[verifier::external_body]
fn statx_btime_bit() -> (r: u32)
    ensures
        r == 0x800,
{
    rustix::fs::StatxFlags::BTIME.bits()
}

/// The `stat` that a `statx` result describes.
pub open spec fn stat_of(s: Statx) -> Stat {
    Stat {
        st_dev: dev_of(s.stx_dev_major, s.stx_dev_minor),
        st_ino: s.stx_ino,
        st_nlink: s.stx_nlink as u64,
        st_mode: s.stx_mode as u32,
        st_uid: s.stx_uid,
        st_gid: s.stx_gid,
        st_rdev: dev_of(s.stx_rdev_major, s.stx_rdev_minor),
        st_size: s.stx_size as i64,
        st_blksize: s.stx_blksize as i64,
        st_blocks: s.stx_blocks as i64,
        st_atime: s.stx_atime.tv_sec,
        st_atime_nsec: s.stx_atime.tv_nsec as i64,
        st_mtime: s.stx_mtime.tv_sec,
        st_mtime_nsec: s.stx_mtime.tv_nsec as i64,
        st_ctime: s.stx_ctime.tv_sec,
        st_ctime_nsec: s.stx_ctime.tv_nsec as i64,
    }
}

/// The birth time of a `statx` result, when its mask says it was filled.
pub open spec fn created_of(s: Statx) -> Option<(i64, i64)> {
    if s.stx_mask & 0x800 != 0 {
        Some((s.stx_btime.tv_sec, s.stx_btime.tv_nsec as i64))
    } else {
        None
    }
}

/// Convert a `statx` result into a `stat`; the inode change time goes to
/// `st_ctime` (a `stat` has no birth time).
pub fn statx_to_stat(statx: Statx) -> (r: Stat)
    ensures
        r == stat_of(statx),
        stat_matches(r, statx),
{
    proof {
        law_stat_fields(statx);
    }
    Stat {
        st_dev: makedev(statx.stx_dev_major, statx.stx_dev_minor),
        st_ino: statx.stx_ino,
        st_nlink: statx.stx_nlink as u64,
        st_mode: statx.stx_mode as u32,
        st_uid: statx.stx_uid,
        st_gid: statx.stx_gid,
        st_rdev: makedev(statx.stx_rdev_major, statx.stx_rdev_minor),
        st_size: statx.stx_size as i64,
        st_blksize: statx.stx_blksize as i64,
        st_blocks: statx.stx_blocks as i64,
        st_atime: statx.stx_atime.tv_sec,
        st_atime_nsec: statx.stx_atime.tv_nsec as i64,
        st_mtime: statx.stx_mtime.tv_sec,
        st_mtime_nsec: statx.stx_mtime.tv_nsec as i64,
        st_ctime: statx.stx_ctime.tv_sec,
        st_ctime_nsec: statx.stx_ctime.tv_nsec as i64,
    }
}

/// The birth time of a `statx` result, if the kernel and filesystem
/// reported it.
pub fn statx_created(statx: &Statx) -> (r: Option<(i64, i64)>)
    ensures
        r == created_of(*statx),
{
    if statx.stx_mask & statx_btime_bit() != 0 {
        Some((statx.stx_btime.tv_sec, statx.stx_btime.tv_nsec as i64))
    } else {
        None
    }
}

/// Convert a `statx` result into file metadata, carrying the birth time
/// beside the `stat`.
pub fn statx_to_attr(statx: Statx) -> (r: FileAttr)
    ensures
        r == (FileAttr { stat: stat_of(statx), created: created_of(statx) }),
{
    FileAttr { stat: statx_to_stat(statx), created: statx_created(&statx) }
}

/// The birth time kept in a `stat`: none on Linux, whose `stat` has no
/// birth time field.
pub fn stat_created(_stat: &Stat) -> (r: Option<(i64, i64)>)
    ensures
        r is None,
{
    None
}

impl FileAttr {
    /// Build from a plain `stat`, extracting the birth time where the
    /// platform stores it there.
    pub fn from_stat(stat: Stat) -> (r: Self)
        ensures
            r == (FileAttr { stat, created: None }),
    {
        FileAttr { created: stat_created(&stat), stat }
    }
}

/// The `statx` flags for a stat: operate on the fd when the path is empty,
/// and do not follow a final symbolic link unless asked to.
pub fn statx_flags(follow_symlink: bool) -> (r: u32)
    ensures
        r == if follow_symlink {
            AT_EMPTY_PATH
        } else {
            AT_EMPTY_PATH | AT_SYMLINK_NOFOLLOW
        },
{
    let mut flags = AT_EMPTY_PATH;
    if !follow_symlink {
        flags = flags | AT_SYMLINK_NOFOLLOW;
    }
    flags
}

/// The call that reads metadata where `statx` is not available.
#[derive(Debug, Clone, Copy, PartialEq, Eq, Structural)]
pub enum StatCall {
    /// `fstat` on the fd itself.
    Fstat,
    /// `fstatat` on the path relative to the fd, with these flags.
    Statat(u32),
}

/// Choose the stat call: `fstat` for an empty path (some platforms lack
/// `AT_EMPTY_PATH`), else `fstatat`, not following a final symbolic link
/// unless asked to.
pub fn stat_call(path_is_empty: bool, follow_symlink: bool) -> (r: StatCall)
    ensures
        path_is_empty ==> r == StatCall::Fstat,
        !path_is_empty && follow_symlink ==> r == StatCall::Statat(0),
        !path_is_empty && !follow_symlink ==> r == StatCall::Statat(AT_SYMLINK_NOFOLLOW),
{
    if path_is_empty {
        StatCall::Fstat
    } else {
        let flags = if follow_symlink { 0 } else { AT_SYMLINK_NOFOLLOW };
        StatCall::Statat(flags)
    }
}

/// The `statx` that a `stat` describes where only `stat` is available:
/// the status change time goes to the birth time, and the mask, the
/// inode change time and the fields `stat` lacks stay zero.
pub open spec fn statx_of(st: Stat) -> Statx {
    Statx {
        stx_mask: 0,
        stx_blksize: st.st_blksize as u32,
        stx_nlink: st.st_nlink as u32,
        stx_uid: st.st_uid,
        stx_gid: st.st_gid,
        stx_mode: st.st_mode as u16,
        stx_ino: st.st_ino,
        stx_size: st.st_size as u64,
        stx_blocks: st.st_blocks as u64,
        stx_atime: StatxTimestamp { tv_sec: st.st_atime, tv_nsec: st.st_atime_nsec as u32 },
        stx_btime: StatxTimestamp { tv_sec: st.st_ctime, tv_nsec: st.st_ctime_nsec as u32 },
        stx_ctime: StatxTimestamp { tv_sec: 0, tv_nsec: 0 },
        stx_mtime: StatxTimestamp { tv_sec: st.st_mtime, tv_nsec: st.st_mtime_nsec as u32 },
        stx_rdev_major: major_of(st.st_rdev),
        stx_rdev_minor: minor_of(st.st_rdev),
        stx_dev_major: major_of(st.st_dev),
        stx_dev_minor: minor_of(st.st_dev),
    }
}

/// Convert a `stat` into a `statx` result.
pub fn stat_to_statx(st: Stat) -> (r: Statx)
    ensures
        r == statx_of(st),
        statx_matches(r, st),
{
    proof {
        law_statx_fields(st);
    }
    Statx {
        stx_mask: 0,
        stx_blksize: st.st_blksize as u32,
        stx_nlink: st.st_nlink as u32,
        stx_uid: st.st_uid,
        stx_gid: st.st_gid,
        stx_mode: st.st_mode as u16,
        stx_ino: st.st_ino,
        stx_size: st.st_size as u64,
        stx_blocks: st.st_blocks as u64,
        stx_atime: StatxTimestamp { tv_sec: st.st_atime, tv_nsec: st.st_atime_nsec as u32 },
        stx_btime: StatxTimestamp { tv_sec: st.st_ctime, tv_nsec: st.st_ctime_nsec as u32 },
        stx_ctime: StatxTimestamp { tv_sec: 0, tv_nsec: 0 },
        stx_mtime: StatxTimestamp { tv_sec: st.st_mtime, tv_nsec: st.st_mtime_nsec as u32 },
        stx_rdev_major: dev_major(st.st_rdev),
        stx_rdev_minor: dev_minor(st.st_rdev),
        stx_dev_major: dev_major(st.st_dev),
        stx_dev_minor: dev_minor(st.st_dev),
    }
}

/// A device number splits into a major and a minor number and is made
/// back from them, and the other way round: the two encodings are
/// inverse.
pub proof fn law_device_numbers_round_trip(dev: u64, major: u32, minor: u32)
    ensures
        dev_of(major_of(dev), minor_of(dev)) == dev,
        major_of(dev_of(major, minor)) == major,
        minor_of(dev_of(major, minor)) == minor,
{
    let m1 = major_of(dev);
    let n1 = minor_of(dev);
    let a = m1 as u64;
    let b = n1 as u64;
    assert(a == (((dev & 0x00000000000fff00) >> 8u64) | ((dev & 0xfffff00000000000) >> 32u64)) as u32 as u64);
    assert(b == (((dev & 0x00000000000000ff) >> 0u64) | ((dev & 0x00000ffffff00000) >> 12u64)) as u32 as u64);
    assert(((a & 0x00000fff) << 8u64) | ((a & 0xfffff000) << 32u64) | ((b & 0x000000ff) << 0u64) | ((b & 0xffffff00) << 12u64) == dev) by (bit_vector)
        requires
            a == (((dev & 0x00000000000fff00) >> 8u64) | ((dev & 0xfffff00000000000) >> 32u64)) as u32 as u64,
            b == (((dev & 0x00000000000000ff) >> 0u64) | ((dev & 0x00000ffffff00000) >> 12u64)) as u32 as u64,
    ;
    let ma = major as u64;
    let mi = minor as u64;
    let d = ((ma & 0x00000fff) << 8u64) | ((ma & 0xfffff000) << 32u64) | ((mi & 0x000000ff) << 0u64) | ((mi & 0xffffff00) << 12u64);
    assert((((d & 0x00000000000fff00) >> 8u64) | ((d & 0xfffff00000000000) >> 32u64)) as u32 == major) by (bit_vector)
        requires
            ma == major as u64,
            mi == minor as u64,
            d == ((ma & 0x00000fff) << 8u64) | ((ma & 0xfffff000) << 32u64) | ((mi & 0x000000ff) << 0u64) | ((mi & 0xffffff00) << 12u64),
    ;
    assert((((d & 0x00000000000000ff) >> 0u64) | ((d & 0x00000ffffff00000) >> 12u64)) as u32 == minor) by (bit_vector)
        requires
            ma == major as u64,
            mi == minor as u64,
            d == ((ma & 0x00000fff) << 8u64) | ((ma & 0xfffff000) << 32u64) | ((mi & 0x000000ff) << 0u64) | ((mi & 0xffffff00) << 12u64),
    ;
}

/// Converting a `statx` result to a `stat` and back keeps the device
/// numbers, the inode, the link count, the mode, the owner, the size, the
/// block size and count, and the access and modification times; the inode
/// change time comes back as the birth time.
pub proof fn law_statx_round_trip(x: Statx)
    ensures
        ({
            let y = statx_of(stat_of(x));
            &&& y.stx_dev_major == x.stx_dev_major && y.stx_dev_minor == x.stx_dev_minor
            &&& y.stx_rdev_major == x.stx_rdev_major && y.stx_rdev_minor == x.stx_rdev_minor
            &&& y.stx_ino == x.stx_ino && y.stx_nlink == x.stx_nlink && y.stx_mode == x.stx_mode
            &&& y.stx_uid == x.stx_uid && y.stx_gid == x.stx_gid
            &&& y.stx_size == x.stx_size && y.stx_blksize == x.stx_blksize
            &&& y.stx_blocks == x.stx_blocks
            &&& y.stx_atime == x.stx_atime && y.stx_mtime == x.stx_mtime
            &&& y.stx_btime == x.stx_ctime
        }),
{
    law_device_numbers_round_trip(0, x.stx_dev_major, x.stx_dev_minor);
    law_device_numbers_round_trip(0, x.stx_rdev_major, x.stx_rdev_minor);
    let size = x.stx_size;
    let blocks = x.stx_blocks;
    assert((size as i64) as u64 == size) by (bit_vector);
    assert((blocks as i64) as u64 == blocks) by (bit_vector);
}

/// A `stat` describes the same file as a `statx` result: every field of the
/// `stat` holds the value of the matching `statx` field (the owner as the
/// owner, the group as the group, each time as that same time), the device
/// numbers split back into the `statx` major and minor numbers, and the
/// inode change time is the change time, not the birth time.
pub open spec fn stat_matches(st: Stat, x: Statx) -> bool {
    &&& major_of(st.st_dev) == x.stx_dev_major && minor_of(st.st_dev) == x.stx_dev_minor
    &&& major_of(st.st_rdev) == x.stx_rdev_major && minor_of(st.st_rdev) == x.stx_rdev_minor
    &&& st.st_ino == x.stx_ino
    &&& st.st_nlink == x.stx_nlink
    &&& st.st_mode == x.stx_mode
    &&& st.st_uid == x.stx_uid
    &&& st.st_gid == x.stx_gid
    &&& st.st_size as u64 == x.stx_size
    &&& st.st_blksize == x.stx_blksize
    &&& st.st_blocks as u64 == x.stx_blocks
    &&& st.st_atime == x.stx_atime.tv_sec && st.st_atime_nsec == x.stx_atime.tv_nsec
    &&& st.st_mtime == x.stx_mtime.tv_sec && st.st_mtime_nsec == x.stx_mtime.tv_nsec
    &&& st.st_ctime == x.stx_ctime.tv_sec && st.st_ctime_nsec == x.stx_ctime.tv_nsec
}

/// A `statx` result built from a `stat` describes the same file: the
/// owner, group, inode, link count, mode, size, block size and count, device
/// numbers and access and modification times are the `stat`'s; the `stat`'s
/// change time is kept as the birth time, and nothing claims to be filled.
pub open spec fn statx_matches(x: Statx, st: Stat) -> bool {
    &&& x.stx_uid == st.st_uid
    &&& x.stx_gid == st.st_gid
    &&& x.stx_ino == st.st_ino
    &&& x.stx_nlink == st.st_nlink as u32
    &&& x.stx_blksize == st.st_blksize as u32
    &&& x.stx_mode == st.st_mode as u16
    &&& x.stx_size as i64 == st.st_size
    &&& x.stx_blocks as i64 == st.st_blocks
    &&& dev_of(x.stx_dev_major, x.stx_dev_minor) == st.st_dev
    &&& dev_of(x.stx_rdev_major, x.stx_rdev_minor) == st.st_rdev
    &&& x.stx_atime.tv_sec == st.st_atime && x.stx_atime.tv_nsec == st.st_atime_nsec as u32
    &&& x.stx_mtime.tv_sec == st.st_mtime && x.stx_mtime.tv_nsec == st.st_mtime_nsec as u32
    &&& x.stx_btime.tv_sec == st.st_ctime && x.stx_btime.tv_nsec == st.st_ctime_nsec as u32
    &&& x.stx_ctime.tv_sec == 0 && x.stx_ctime.tv_nsec == 0
    &&& x.stx_mask == 0
}

/// Converting a `statx` result gives a `stat` of the same file, field by
/// field: the owner stays the owner and the group the group, each time
/// stays that time, and the device numbers split back into the ones
/// given.
pub proof fn law_stat_fields(x: Statx)
    ensures
        stat_matches(stat_of(x), x),
{
    law_device_numbers_round_trip(0, x.stx_dev_major, x.stx_dev_minor);
    law_device_numbers_round_trip(0, x.stx_rdev_major, x.stx_rdev_minor);
    let size = x.stx_size;
    let blocks = x.stx_blocks;
    assert((size as i64) as u64 == size) by (bit_vector);
    assert((blocks as i64) as u64 == blocks) by (bit_vector);
}

/// Converting a `stat` gives a `statx` result of the same file, field by
/// field: the owner stays the owner and the group the group, and the
/// device numbers make back the ones given.
pub proof fn law_statx_fields(st: Stat)
    ensures
        statx_matches(statx_of(st), st),
{
    law_device_numbers_round_trip(st.st_dev, 0, 0);
    law_device_numbers_round_trip(st.st_rdev, 0, 0);
    let size = st.st_size;
    let blocks = st.st_blocks;
    assert((size as u64) as i64 == size) by (bit_vector);
    assert((blocks as u64) as i64 == blocks) by (bit_vector);
}

} // verus!
