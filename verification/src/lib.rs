//! Verified core of an asynchronous I/O driver: the interest queues and the
//! registry of the polling backend, readiness tracking, operation flags,
//! the parsing of multishot receive buffers, file metadata conversion and
//! the operation descriptors handed to the kernel.

pub mod interest;
pub mod fd_queue;
pub mod registry;
pub mod poll_extra;
pub mod op_flag;
pub mod recv_msg;
pub mod stat;
pub mod io_result;
pub mod buf_result;
pub mod sys_slice;
pub mod op;
pub mod iour_probe;
pub mod win_fd;
pub mod thread_map;
pub mod sqe;
pub mod msg_hdr;
