use vstd::prelude::*;
use crate::op_flag::{code_accept, code_recv, code_recv_msg};

verus! {

/// `IORING_RECVSEND_POLL_FIRST`: poll before the first receive attempt.
pub const IORING_RECVSEND_POLL_FIRST: u16 = 1;
/// `IORING_RECV_MULTISHOT`: multishot receive.
pub const IORING_RECV_MULTISHOT: u16 = 2;
/// `IORING_ACCEPT_MULTISHOT`: multishot accept.
pub const IORING_ACCEPT_MULTISHOT: u16 = 1;
/// `IORING_ACCEPT_POLL_FIRST`: poll before the first accept attempt.
pub const IORING_ACCEPT_POLL_FIRST: u16 = 4;

/// An operation to check support for: its code and the `ioprio` flags it
/// sets.
#[derive(Debug, Clone, Copy, PartialEq, Eq, Structural)]
pub struct OpDesc {
    pub code: u8,
    pub ioprio: u16,
}

impl OpDesc {
    /// An operation with no `ioprio` flag.
    pub fn from_code(code: u8) -> (r: Self)
        ensures
            r == (OpDesc { code, ioprio: 0 }),
    {
        OpDesc { code, ioprio: 0 }
    }

    /// An operation with `ioprio` flags.
    pub fn from_code_ioprio(value: (u8, u16)) -> (r: Self)
        ensures
            r == (OpDesc { code: value.0, ioprio: value.1 }),
    {
        OpDesc { code: value.0, ioprio: value.1 }
    }
}

/// Whether every probed flag that `ioprio` sets was found supported.
pub open spec fn all_set_flags_supported(ioprio: u16, probes: Seq<(u16, bool)>) -> bool {
    forall|i: int| 0 <= i < probes.len() && #[trigger] (ioprio & probes[i].0) != 0 ==> probes[i].1
}

/// Whether the `ioprio` flags of an operation are supported, given for
/// each single flag whether a probe found it supported.
pub fn ioprio_supported(ioprio: u16, probes: &Vec<(u16, bool)>) -> (r: bool)
    ensures
        r == all_set_flags_supported(ioprio, probes@),
{
    let mut res = true;
    let mut i: usize = 0;
    while i < probes.len()
        invariant
            i <= probes@.len(),
            res == all_set_flags_supported(ioprio, probes@.take(i as int)),
        decreases probes@.len() - i,
    {
        let (flag, ok) = probes[i];
        if (ioprio & flag) != 0 {
            res = res && ok;
        }
        proof {
            let t = probes@.take(i as int + 1);
            assert(t[i as int] == probes@[i as int]);
            assert forall|j: int| 0 <= j < i implies t[j] == probes@.take(i as int)[j] by {}
        }
        i = i + 1;
    }
    proof {
        assert(probes@.take(probes@.len() as int) =~= probes@);
    }
    res
}

/// The support of operations as the kernel's probe reports it, and of the
/// `ioprio` flags of accept, receive and message receive as found by
/// trying them.
pub struct ProbeResults {
    /// The probe reported the operation code supported.
    pub op_supported: bool,
    /// Per accept `ioprio` flag, whether it works.
    pub accept: Vec<(u16, bool)>,
    /// Per receive `ioprio` flag, whether it works.
    pub recv: Vec<(u16, bool)>,
    /// Per message receive `ioprio` flag, whether it works.
    pub recvmsg: Vec<(u16, bool)>,
}

/// Whether an operation is supported: its code must be, and for accept,
/// receive and message receive so must every `ioprio` flag it sets.
pub open spec fn op_supported_spec(desc: OpDesc, p: ProbeResults) -> bool {
    if desc.code == 13 {
        p.op_supported && all_set_flags_supported(desc.ioprio, p.accept@)
    } else if desc.code == 27 {
        p.op_supported && all_set_flags_supported(desc.ioprio, p.recv@)
    } else if desc.code == 10 {
        p.op_supported && all_set_flags_supported(desc.ioprio, p.recvmsg@)
    } else {
        p.op_supported
    }
}

/// Whether an operation is supported, from the probe results.
pub fn is_op_supported(desc: OpDesc, probes: &ProbeResults) -> (r: bool)
    ensures
        r == op_supported_spec(desc, *probes),
{
    if desc.code == code_accept() {
        probes.op_supported && ioprio_supported(desc.ioprio, &probes.accept)
    } else if desc.code == code_recv() {
        probes.op_supported && ioprio_supported(desc.ioprio, &probes.recv)
    } else if desc.code == code_recv_msg() {
        probes.op_supported && ioprio_supported(desc.ioprio, &probes.recvmsg)
    } else {
        probes.op_supported
    }
}

/// The `ioprio` flag that asks an operation to poll before its first
/// attempt: for accept, receive and message receive when the kernel
/// supports it there, none otherwise or when not asked for.
pub fn poll_first_flag(
    code: u8,
    flag: bool,
    accept_supported: bool,
    recv_supported: bool,
    recvmsg_supported: bool,
) -> (r: u16)
    ensures
        !flag ==> r == 0,
        flag && code == 13 ==> r == (if accept_supported {
            IORING_ACCEPT_POLL_FIRST
        } else {
            0
        }),
        flag && code == 27 ==> r == (if recv_supported {
            IORING_RECVSEND_POLL_FIRST
        } else {
            0
        }),
        flag && code == 10 ==> r == (if recvmsg_supported {
            IORING_RECVSEND_POLL_FIRST
        } else {
            0
        }),
        flag && code != 13 && code != 27 && code != 10 ==> r == 0,
{
    if !flag {
        return 0;
    }
    if code == code_accept() && accept_supported {
        IORING_ACCEPT_POLL_FIRST
    } else if code == code_recv() && recv_supported {
        IORING_RECVSEND_POLL_FIRST
    } else if code == code_recv_msg() && recvmsg_supported {
        IORING_RECVSEND_POLL_FIRST
    } else {
        0
    }
}

/// An operation that sets no `ioprio` flag needs only its code supported,
/// and an unsupported code is never supported whatever its flags.
pub proof fn law_support_needs_code(desc: OpDesc, p: ProbeResults)
    ensures
        desc.ioprio == 0 ==> (op_supported_spec(desc, p) == p.op_supported),
        !p.op_supported ==> !op_supported_spec(desc, p),
{
    if desc.ioprio == 0 {
        assert forall|i: int| 0 <= i < p.accept@.len() implies !((desc.ioprio & #[trigger] p.accept@[i].0) != 0) by {
            let b = p.accept@[i].0;
            assert((0u16 & b) == 0u16) by (bit_vector);
        }
        assert forall|i: int| 0 <= i < p.recv@.len() implies !((desc.ioprio & #[trigger] p.recv@[i].0) != 0) by {
            let b = p.recv@[i].0;
            assert((0u16 & b) == 0u16) by (bit_vector);
        }
        assert forall|i: int| 0 <= i < p.recvmsg@.len() implies !((desc.ioprio & #[trigger] p.recvmsg@[i].0) != 0) by {
            let b = p.recvmsg@[i].0;
            assert((0u16 & b) == 0u16) by (bit_vector);
        }
    }
}

} // verus!
