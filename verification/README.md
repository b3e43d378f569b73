# compio_driver

The core of an asynchronous I/O driver (polling, io_uring and IOCP
backends), written in Verus: what the driver decides about its operations
— their arguments and requests, how results are classified, the polling
backend's bookkeeping and how a refused submission is undone — are
functions with contracts, and the properties that span several calls are
stated as proof functions. The loops that perform the I/O live in `app/`.

## Layout

- `src/` — the verified library.
  - `interest.rs`, `fd_queue.rs`, `registry.rs`, `poll_extra.rs`: the
    polling backend's bookkeeping — the per-fd queues of waiting
    operations, what is registered with the poller, and when an operation
    waiting on several fds is ready.
  - `io_result.rs`: how results of system calls and Win32 calls become
    ready, pending or failed.
  - `buf_result.rs`: buffers with an initialized part, and marking what an
    operation filled (also across vectored buffers).
  - `op/`: the operations — their arguments, the flags they pass, what they
    keep of a completion, multishot completion queues and buffers selected
    by the kernel.
  - `recv_msg.rs`: the layout of the buffers of a multishot `recvmsg`.
  - `sqe.rs`: the io_uring requests each operation makes, as plain values.
  - `op_flag.rs`, `iour_probe.rs`: io_uring opcode sets and support checks.
  - `stat.rs`: `statx`/`stat` conversions.
  - `thread_map.rs`, `win_fd.rs`, `sys_slice.rs`: small supporting types.
- `tests/` — tests of the library on concrete values.
- `app/` — the system calls, the poller, kernel probes and conversions to
  the types of std and of the outside crates, around the library
  (`iocp.rs`, the overlapped calls, is built on Windows only).
