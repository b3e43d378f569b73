use linux_raw_sys::io_uring as u;
use compio_driver::iour_probe::{
    ioprio_supported, is_op_supported, poll_first_flag, OpDesc, ProbeResults,
    IORING_ACCEPT_MULTISHOT, IORING_ACCEPT_POLL_FIRST, IORING_RECVSEND_POLL_FIRST,
    IORING_RECV_MULTISHOT,
};

fn probes(op_supported: bool) -> ProbeResults {
    ProbeResults {
        op_supported,
        accept: vec![(IORING_ACCEPT_MULTISHOT, true), (IORING_ACCEPT_POLL_FIRST, false)],
        recv: vec![(IORING_RECVSEND_POLL_FIRST, true), (IORING_RECV_MULTISHOT, true)],
        recvmsg: vec![(IORING_RECVSEND_POLL_FIRST, false)],
    }
}

#[test]
fn ioprio_constants_match_kernel_headers() {
    assert_eq!(IORING_RECVSEND_POLL_FIRST as u32, u::IORING_RECVSEND_POLL_FIRST);
    assert_eq!(IORING_RECV_MULTISHOT as u32, u::IORING_RECV_MULTISHOT);
    assert_eq!(IORING_ACCEPT_MULTISHOT as u32, u::IORING_ACCEPT_MULTISHOT);
    assert_eq!(IORING_ACCEPT_POLL_FIRST as u32, u::IORING_ACCEPT_POLL_FIRST);
}

#[test]
fn ioprio_needs_every_set_flag() {
    let p = vec![(1u16, true), (2u16, false), (4u16, true)];
    assert!(ioprio_supported(0, &p));
    assert!(ioprio_supported(1, &p));
    assert!(ioprio_supported(5, &p));
    assert!(!ioprio_supported(2, &p));
    assert!(!ioprio_supported(3, &p));
    assert!(ioprio_supported(8, &p));
}

#[test]
fn op_support_by_code_and_flags() {
    let accept = io_uring::opcode::Accept::CODE;
    let recv = io_uring::opcode::Recv::CODE;
    let recvmsg = io_uring::opcode::RecvMsg::CODE;
    let read = io_uring::opcode::Read::CODE;
    let p = probes(true);
    assert!(is_op_supported(OpDesc::from_code(read), &p));
    assert!(is_op_supported(OpDesc::from_code_ioprio((accept, IORING_ACCEPT_MULTISHOT)), &p));
    assert!(!is_op_supported(OpDesc::from_code_ioprio((accept, IORING_ACCEPT_POLL_FIRST)), &p));
    assert!(is_op_supported(
        OpDesc::from_code_ioprio((recv, IORING_RECVSEND_POLL_FIRST | IORING_RECV_MULTISHOT)),
        &p
    ));
    assert!(!is_op_supported(OpDesc::from_code_ioprio((recvmsg, IORING_RECVSEND_POLL_FIRST)), &p));
    assert!(is_op_supported(OpDesc::from_code(recvmsg), &p));
    assert!(!is_op_supported(OpDesc::from_code(read), &probes(false)));
    assert!(!is_op_supported(OpDesc::from_code(accept), &probes(false)));
}

#[test]
fn poll_first_flag_per_operation() {
    let accept = io_uring::opcode::Accept::CODE;
    let recv = io_uring::opcode::Recv::CODE;
    let recvmsg = io_uring::opcode::RecvMsg::CODE;
    let read = io_uring::opcode::Read::CODE;
    assert_eq!(poll_first_flag(accept, false, true, true, true), 0);
    assert_eq!(poll_first_flag(accept, true, true, false, false), IORING_ACCEPT_POLL_FIRST);
    assert_eq!(poll_first_flag(accept, true, false, true, true), 0);
    assert_eq!(poll_first_flag(recv, true, false, true, false), IORING_RECVSEND_POLL_FIRST);
    assert_eq!(poll_first_flag(recvmsg, true, false, false, true), IORING_RECVSEND_POLL_FIRST);
    assert_eq!(poll_first_flag(recvmsg, true, true, true, false), 0);
    assert_eq!(poll_first_flag(read, true, true, true, true), 0);
}
