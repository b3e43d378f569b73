//! The operations: descriptions of the work passed to the kernel, with the
//! decisions each makes about its own result.

pub mod asyncify;
pub mod general;
pub mod fs;
pub mod unix;
pub mod socket;
pub mod managed;
pub mod managed_multi;
pub mod multishot;
pub mod zerocopy;
pub mod iocp;
