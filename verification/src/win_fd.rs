//! Handles and sockets on Windows. Both can be attached to a completion
//! port, so both are seen as fds; a raw one is held as an address-sized
//! integer.

use vstd::prelude::*;

verus! {

/// A raw handle or socket.
pub type RawFd = usize;

/// Extracts raw fds.
pub trait AsRawFd {
    /// The raw fd.
    spec fn raw_fd(&self) -> RawFd;

    /// Extracts the raw fd.
    fn as_raw_fd(&self) -> (r: RawFd)
        ensures
            r == self.raw_fd(),
    ;
}

impl AsRawFd for RawFd {
    open spec fn raw_fd(&self) -> RawFd {
        *self
    }

    fn as_raw_fd(&self) -> (r: RawFd) {
        *self
    }
}

/// Owned handle or socket on Windows.
#[derive(Debug, PartialEq, Eq, Structural)]
pub enum OwnedFd {
    /// Win32 handle.
    File(RawFd),
    /// Windows socket handle.
    Socket(RawFd),
}

/// Borrowed handle or socket on Windows.
#[derive(Debug, Clone, Copy, PartialEq, Eq, Structural)]
pub enum BorrowedFd {
    /// Win32 handle.
    File(RawFd),
    /// Windows socket handle.
    Socket(RawFd),
}

impl AsRawFd for OwnedFd {
    open spec fn raw_fd(&self) -> RawFd {
        match self {
            OwnedFd::File(h) => *h,
            OwnedFd::Socket(s) => *s,
        }
    }

    fn as_raw_fd(&self) -> (r: RawFd) {
        match self {
            OwnedFd::File(h) => *h,
            OwnedFd::Socket(s) => *s,
        }
    }
}

impl AsRawFd for BorrowedFd {
    open spec fn raw_fd(&self) -> RawFd {
        match self {
            BorrowedFd::File(h) => *h,
            BorrowedFd::Socket(s) => *s,
        }
    }

    fn as_raw_fd(&self) -> (r: RawFd) {
        match self {
            BorrowedFd::File(h) => *h,
            BorrowedFd::Socket(s) => *s,
        }
    }
}

/// Extracts fds.
pub trait AsFd {
    /// The borrowed fd.
    spec fn borrowed(&self) -> BorrowedFd;

    /// Extracts the borrowed fd.
    fn as_fd(&self) -> (r: BorrowedFd)
        ensures
            r == self.borrowed(),
    ;
}

impl AsFd for OwnedFd {
    /// A handle is borrowed as a handle, a socket as a socket.
    open spec fn borrowed(&self) -> BorrowedFd {
        match self {
            OwnedFd::File(h) => BorrowedFd::File(*h),
            OwnedFd::Socket(s) => BorrowedFd::Socket(*s),
        }
    }

    fn as_fd(&self) -> (r: BorrowedFd) {
        match self {
            OwnedFd::File(h) => BorrowedFd::File(*h),
            OwnedFd::Socket(s) => BorrowedFd::Socket(*s),
        }
    }
}

impl AsFd for BorrowedFd {
    open spec fn borrowed(&self) -> BorrowedFd {
        *self
    }

    fn as_fd(&self) -> (r: BorrowedFd) {
        *self
    }
}

/// Borrowing an fd keeps both its kind and its raw value.
pub proof fn law_borrow_keeps_raw(fd: OwnedFd)
    ensures
        fd.borrowed().raw_fd() == fd.raw_fd(),
        (fd is File) == (fd.borrowed() is File),
{
}

} // verus!
