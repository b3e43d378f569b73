use vstd::prelude::*;

verus! {

/// Detect `Read` OpCode
pub const READ: u32 = 0x1;
/// Detect `Readv` OpCode
pub const READV: u32 = 0x2;
/// Detect `Write` OpCode
pub const WRITE: u32 = 0x4;
/// Detect `Writev` OpCode
pub const WRITEV: u32 = 0x8;
/// Detect `Fsync` OpCode
pub const FSYNC: u32 = 0x10;
/// Detect `Accept` OpCode
pub const ACCEPT: u32 = 0x20;
/// Detect `Connect` OpCode
pub const CONNECT: u32 = 0x40;
/// Detect `Recv` OpCode
pub const RECV: u32 = 0x80;
/// Detect `Send` OpCode
pub const SEND: u32 = 0x100;
/// Detect `RecvMsg` OpCode
pub const RECV_MSG: u32 = 0x200;
/// Detect `SendMsg` OpCode
pub const SEND_MSG: u32 = 0x400;
/// Detect `AsyncCancel` OpCode
pub const ASYNC_CANCEL: u32 = 0x800;
/// Detect `OpenAt` OpCode
pub const OPEN_AT: u32 = 0x1000;
/// Detect `Close` OpCode
pub const CLOSE: u32 = 0x2000;
/// Detect `Splice` OpCode
pub const SPLICE: u32 = 0x4000;
/// Detect `Shutdown` OpCode
pub const SHUTDOWN: u32 = 0x8000;
/// Detect `PollAdd` OpCode
pub const POLL_ADD: u32 = 0x10000;
/// Every bit that names a flag.
pub const ALL_BITS: u32 = 0x1ffff;

/// Flags for operations: a set of io-uring operation codes, one bit each.
#[derive(Debug, Clone, Copy, PartialEq, Eq, Structural)]
pub struct OpCodeFlag {
    bits: u32,
}

/// The io-uring operation code of the flag `mask`, as a one-element
/// sequence when `bits` has it.
pub open spec fn code_if(bits: u32, mask: u32, code: u8) -> Seq<u8> {
    if bits & mask != 0 {
        seq![code]
    } else {
        Seq::empty()
    }
}

/// The io-uring operation codes of the flags set in `bits`, in the order
/// the flags are declared.
pub open spec fn codes_of(bits: u32) -> Seq<u8> {
    code_if(bits, READ, 22) + code_if(bits, READV, 1) + code_if(bits, WRITE, 23) + code_if(
        bits,
        WRITEV,
        2,
    ) + code_if(bits, FSYNC, 3) + code_if(bits, ACCEPT, 13) + code_if(bits, CONNECT, 16) + code_if(
        bits,
        RECV,
        27,
    ) + code_if(bits, SEND, 26) + code_if(bits, RECV_MSG, 10) + code_if(bits, SEND_MSG, 9)
        + code_if(bits, ASYNC_CANCEL, 14) + code_if(bits, OPEN_AT, 18) + code_if(bits, CLOSE, 19)
        + code_if(bits, SPLICE, 30) + code_if(bits, SHUTDOWN, 34) + code_if(bits, POLL_ADD, 6)
}

impl View for OpCodeFlag {
    type V = u32;

    closed spec fn view(&self) -> u32 {
        self.bits
    }
}

/// The io-uring operation code of `IORING_OP_READ`.
#[verifier::external_body]
pub(crate) fn code_read() -> (r: u8)
    ensures
        r == 22,
{
    io_uring::opcode::Read::CODE
}

/// The io-uring operation code of `IORING_OP_READV`.
#[verifier::external_body]
pub(crate) fn code_readv() -> (r: u8)
    ensures
        r == 1,
{
    io_uring::opcode::Readv::CODE
}

/// The io-uring operation code of `IORING_OP_WRITE`.
#[verifier::external_body]
pub(crate) fn code_write() -> (r: u8)
    ensures
        r == 23,
{
    io_uring::opcode::Write::CODE
}

/// The io-uring operation code of `IORING_OP_WRITEV`.
#[verifier::external_body]
pub(crate) fn code_writev() -> (r: u8)
    ensures
        r == 2,
{
    io_uring::opcode::Writev::CODE
}

/// The io-uring operation code of `IORING_OP_FSYNC`.
#[verifier::external_body]
pub(crate) fn code_fsync() -> (r: u8)
    ensures
        r == 3,
{
    io_uring::opcode::Fsync::CODE
}

/// The io-uring operation code of `IORING_OP_ACCEPT`.
#[verifier::external_body]
pub(crate) fn code_accept() -> (r: u8)
    ensures
        r == 13,
{
    io_uring::opcode::Accept::CODE
}

/// The io-uring operation code of `IORING_OP_CONNECT`.
#[verifier::external_body]
pub(crate) fn code_connect() -> (r: u8)
    ensures
        r == 16,
{
    io_uring::opcode::Connect::CODE
}

/// The io-uring operation code of `IORING_OP_RECV`.
#[verifier::external_body]
pub(crate) fn code_recv() -> (r: u8)
    ensures
        r == 27,
{
    io_uring::opcode::Recv::CODE
}

/// The io-uring operation code of `IORING_OP_SEND`.
#[verifier::external_body]
pub(crate) fn code_send() -> (r: u8)
    ensures
        r == 26,
{
    io_uring::opcode::Send::CODE
}

/// The io-uring operation code of `IORING_OP_RECVMSG`.
#[verifier::external_body]
pub(crate) fn code_recv_msg() -> (r: u8)
    ensures
        r == 10,
{
    io_uring::opcode::RecvMsg::CODE
}

/// The io-uring operation code of `IORING_OP_SENDMSG`.
#[verifier::external_body]
pub(crate) fn code_send_msg() -> (r: u8)
    ensures
        r == 9,
{
    io_uring::opcode::SendMsg::CODE
}

/// The io-uring operation code of `IORING_OP_ASYNC_CANCEL`.
#[verifier::external_body]
pub(crate) fn code_async_cancel() -> (r: u8)
    ensures
        r == 14,
{
    io_uring::opcode::AsyncCancel::CODE
}

/// The io-uring operation code of `IORING_OP_OPENAT`.
#[verifier::external_body]
pub(crate) fn code_open_at() -> (r: u8)
    ensures
        r == 18,
{
    io_uring::opcode::OpenAt::CODE
}

/// The io-uring operation code of `IORING_OP_CLOSE`.
#[verifier::external_body]
pub(crate) fn code_close() -> (r: u8)
    ensures
        r == 19,
{
    io_uring::opcode::Close::CODE
}

/// The io-uring operation code of `IORING_OP_SPLICE`.
#[verifier::external_body]
pub(crate) fn code_splice() -> (r: u8)
    ensures
        r == 30,
{
    io_uring::opcode::Splice::CODE
}

/// The io-uring operation code of `IORING_OP_SHUTDOWN`.
#[verifier::external_body]
pub(crate) fn code_shutdown() -> (r: u8)
    ensures
        r == 34,
{
    io_uring::opcode::Shutdown::CODE
}

/// The io-uring operation code of `IORING_OP_POLL_ADD`.
#[verifier::external_body]
pub(crate) fn code_poll_add() -> (r: u8)
    ensures
        r == 6,
{
    io_uring::opcode::PollAdd::CODE
}

/// Append the code of the flag `mask` when `bits` has it.
fn push_code_if(codes: &mut Vec<u8>, bits: u32, mask: u32, code: u8)
    ensures
        final(codes)@ == old(codes)@ + code_if(bits, mask, code),
{
    if bits & mask != 0 {
        codes.push(code);
    }
    assert(final(codes)@ =~= old(codes)@ + code_if(bits, mask, code));
}

impl OpCodeFlag {
    /// The raw bits.
    pub fn bits(&self) -> (r: u32)
        ensures
            r == self@,
    {
        self.bits
    }

    /// The set with exactly these bits, known or not.
    pub fn from_bits_retain(bits: u32) -> (r: Self)
        ensures
            r@ == bits,
    {
        OpCodeFlag { bits }
    }

    /// The set with these bits, or `None` when a bit names no flag.
    pub fn from_bits(bits: u32) -> (r: Option<Self>)
        ensures
            bits & !ALL_BITS == 0 ==> (r matches Some(f) && f@ == bits),
            bits & !ALL_BITS != 0 ==> r is None,
    {
        if bits & !ALL_BITS == 0 {
            Some(OpCodeFlag { bits })
        } else {
            None
        }
    }

    /// The set with the bits that name flags.
    pub fn from_bits_truncate(bits: u32) -> (r: Self)
        ensures
            r@ == bits & ALL_BITS,
    {
        OpCodeFlag { bits: bits & ALL_BITS }
    }

    /// No flag.
    pub fn empty() -> (r: Self)
        ensures
            r@ == 0,
    {
        OpCodeFlag { bits: 0 }
    }

    /// Every flag.
    pub fn all() -> (r: Self)
        ensures
            r@ == ALL_BITS,
    {
        OpCodeFlag { bits: ALL_BITS }
    }

    /// Whether no flag is set.
    pub fn is_empty(&self) -> (r: bool)
        ensures
            r == (self@ == 0),
    {
        self.bits == 0
    }

    /// The flags of either set.
    pub fn union(self, other: Self) -> (r: Self)
        ensures
            r@ == self@ | other@,
    {
        OpCodeFlag { bits: self.bits | other.bits }
    }

    /// The flags of both sets.
    pub fn intersection(self, other: Self) -> (r: Self)
        ensures
            r@ == self@ & other@,
    {
        OpCodeFlag { bits: self.bits & other.bits }
    }

    /// Whether every flag of `other` is set here.
    pub fn contains(&self, other: Self) -> (r: bool)
        ensures
            r == (self@ & other@ == other@),
    {
        self.bits & other.bits == other.bits
    }

    /// The flags of the basic operation codes that are commonly used:
    /// reads and writes (plain and vectored), fsync, accept, connect,
    /// send and receive (plain and with messages) and poll.
    pub fn basic() -> (r: Self)
        ensures
            r@ == READ | READV | WRITE | WRITEV | FSYNC | ACCEPT | CONNECT | RECV | SEND | RECV_MSG
                | SEND_MSG | POLL_ADD,
    {
        OpCodeFlag {
            bits: READ | READV | WRITE | WRITEV | FSYNC | ACCEPT | CONNECT | RECV | SEND | RECV_MSG
                | SEND_MSG | POLL_ADD,
        }
    }

    /// The io-uring operation codes of the set flags, in the order the
    /// flags are declared.
    pub fn get_codes(&self) -> (r: Vec<u8>)
        requires
            self@ & !ALL_BITS == 0,
        ensures
            r@ == codes_of(self@),
    {
        let b = self.bits;
        let mut codes: Vec<u8> = Vec::new();
        let ghost mut expected: Seq<u8> = Seq::empty();
        push_code_if(&mut codes, b, READ, code_read());
        proof {
            expected = expected + code_if(b, READ, 22);
        }
        assert(codes@ == expected);
        push_code_if(&mut codes, b, READV, code_readv());
        proof {
            expected = expected + code_if(b, READV, 1);
        }
        assert(codes@ == expected);
        push_code_if(&mut codes, b, WRITE, code_write());
        proof {
            expected = expected + code_if(b, WRITE, 23);
        }
        assert(codes@ == expected);
        push_code_if(&mut codes, b, WRITEV, code_writev());
        proof {
            expected = expected + code_if(b, WRITEV, 2);
        }
        assert(codes@ == expected);
        push_code_if(&mut codes, b, FSYNC, code_fsync());
        proof {
            expected = expected + code_if(b, FSYNC, 3);
        }
        assert(codes@ == expected);
        push_code_if(&mut codes, b, ACCEPT, code_accept());
        proof {
            expected = expected + code_if(b, ACCEPT, 13);
        }
        assert(codes@ == expected);
        push_code_if(&mut codes, b, CONNECT, code_connect());
        proof {
            expected = expected + code_if(b, CONNECT, 16);
        }
        assert(codes@ == expected);
        push_code_if(&mut codes, b, RECV, code_recv());
        proof {
            expected = expected + code_if(b, RECV, 27);
        }
        assert(codes@ == expected);
        push_code_if(&mut codes, b, SEND, code_send());
        proof {
            expected = expected + code_if(b, SEND, 26);
        }
        assert(codes@ == expected);
        push_code_if(&mut codes, b, RECV_MSG, code_recv_msg());
        proof {
            expected = expected + code_if(b, RECV_MSG, 10);
        }
        assert(codes@ == expected);
        push_code_if(&mut codes, b, SEND_MSG, code_send_msg());
        proof {
            expected = expected + code_if(b, SEND_MSG, 9);
        }
        assert(codes@ == expected);
        push_code_if(&mut codes, b, ASYNC_CANCEL, code_async_cancel());
        proof {
            expected = expected + code_if(b, ASYNC_CANCEL, 14);
        }
        assert(codes@ == expected);
        push_code_if(&mut codes, b, OPEN_AT, code_open_at());
        proof {
            expected = expected + code_if(b, OPEN_AT, 18);
        }
        assert(codes@ == expected);
        push_code_if(&mut codes, b, CLOSE, code_close());
        proof {
            expected = expected + code_if(b, CLOSE, 19);
        }
        assert(codes@ == expected);
        push_code_if(&mut codes, b, SPLICE, code_splice());
        proof {
            expected = expected + code_if(b, SPLICE, 30);
        }
        assert(codes@ == expected);
        push_code_if(&mut codes, b, SHUTDOWN, code_shutdown());
        proof {
            expected = expected + code_if(b, SHUTDOWN, 34);
        }
        assert(codes@ == expected);
        push_code_if(&mut codes, b, POLL_ADD, code_poll_add());
        proof {
            expected = expected + code_if(b, POLL_ADD, 6);
        }
        assert(codes@ == expected);
        assert(expected == codes_of(b));
        codes
    }
}

/// The flag bits are distinct single bits.
proof fn lemma_flag_bits()
    by (bit_vector)
    ensures
        0x1u32 & 0x1u32 != 0,
        0x1u32 & 0x2u32 == 0,
        0x1u32 & 0x4u32 == 0,
        0x1u32 & 0x8u32 == 0,
        0x1u32 & 0x10u32 == 0,
        0x1u32 & 0x20u32 == 0,
        0x1u32 & 0x40u32 == 0,
        0x1u32 & 0x80u32 == 0,
        0x1u32 & 0x100u32 == 0,
        0x1u32 & 0x200u32 == 0,
        0x1u32 & 0x400u32 == 0,
        0x1u32 & 0x800u32 == 0,
        0x1u32 & 0x1000u32 == 0,
        0x1u32 & 0x2000u32 == 0,
        0x1u32 & 0x4000u32 == 0,
        0x1u32 & 0x8000u32 == 0,
        0x1u32 & 0x10000u32 == 0,
        0x2u32 & 0x1u32 == 0,
        0x2u32 & 0x2u32 != 0,
        0x2u32 & 0x4u32 == 0,
        0x2u32 & 0x8u32 == 0,
        0x2u32 & 0x10u32 == 0,
        0x2u32 & 0x20u32 == 0,
        0x2u32 & 0x40u32 == 0,
        0x2u32 & 0x80u32 == 0,
        0x2u32 & 0x100u32 == 0,
        0x2u32 & 0x200u32 == 0,
        0x2u32 & 0x400u32 == 0,
        0x2u32 & 0x800u32 == 0,
        0x2u32 & 0x1000u32 == 0,
        0x2u32 & 0x2000u32 == 0,
        0x2u32 & 0x4000u32 == 0,
        0x2u32 & 0x8000u32 == 0,
        0x2u32 & 0x10000u32 == 0,
        0x4u32 & 0x1u32 == 0,
        0x4u32 & 0x2u32 == 0,
        0x4u32 & 0x4u32 != 0,
        0x4u32 & 0x8u32 == 0,
        0x4u32 & 0x10u32 == 0,
        0x4u32 & 0x20u32 == 0,
        0x4u32 & 0x40u32 == 0,
        0x4u32 & 0x80u32 == 0,
        0x4u32 & 0x100u32 == 0,
        0x4u32 & 0x200u32 == 0,
        0x4u32 & 0x400u32 == 0,
        0x4u32 & 0x800u32 == 0,
        0x4u32 & 0x1000u32 == 0,
        0x4u32 & 0x2000u32 == 0,
        0x4u32 & 0x4000u32 == 0,
        0x4u32 & 0x8000u32 == 0,
        0x4u32 & 0x10000u32 == 0,
        0x8u32 & 0x1u32 == 0,
        0x8u32 & 0x2u32 == 0,
        0x8u32 & 0x4u32 == 0,
        0x8u32 & 0x8u32 != 0,
        0x8u32 & 0x10u32 == 0,
        0x8u32 & 0x20u32 == 0,
        0x8u32 & 0x40u32 == 0,
        0x8u32 & 0x80u32 == 0,
        0x8u32 & 0x100u32 == 0,
        0x8u32 & 0x200u32 == 0,
        0x8u32 & 0x400u32 == 0,
        0x8u32 & 0x800u32 == 0,
        0x8u32 & 0x1000u32 == 0,
        0x8u32 & 0x2000u32 == 0,
        0x8u32 & 0x4000u32 == 0,
        0x8u32 & 0x8000u32 == 0,
        0x8u32 & 0x10000u32 == 0,
        0x10u32 & 0x1u32 == 0,
        0x10u32 & 0x2u32 == 0,
        0x10u32 & 0x4u32 == 0,
        0x10u32 & 0x8u32 == 0,
        0x10u32 & 0x10u32 != 0,
        0x10u32 & 0x20u32 == 0,
        0x10u32 & 0x40u32 == 0,
        0x10u32 & 0x80u32 == 0,
        0x10u32 & 0x100u32 == 0,
        0x10u32 & 0x200u32 == 0,
        0x10u32 & 0x400u32 == 0,
        0x10u32 & 0x800u32 == 0,
        0x10u32 & 0x1000u32 == 0,
        0x10u32 & 0x2000u32 == 0,
        0x10u32 & 0x4000u32 == 0,
        0x10u32 & 0x8000u32 == 0,
        0x10u32 & 0x10000u32 == 0,
        0x20u32 & 0x1u32 == 0,
        0x20u32 & 0x2u32 == 0,
        0x20u32 & 0x4u32 == 0,
        0x20u32 & 0x8u32 == 0,
        0x20u32 & 0x10u32 == 0,
        0x20u32 & 0x20u32 != 0,
        0x20u32 & 0x40u32 == 0,
        0x20u32 & 0x80u32 == 0,
        0x20u32 & 0x100u32 == 0,
        0x20u32 & 0x200u32 == 0,
        0x20u32 & 0x400u32 == 0,
        0x20u32 & 0x800u32 == 0,
        0x20u32 & 0x1000u32 == 0,
        0x20u32 & 0x2000u32 == 0,
        0x20u32 & 0x4000u32 == 0,
        0x20u32 & 0x8000u32 == 0,
        0x20u32 & 0x10000u32 == 0,
        0x40u32 & 0x1u32 == 0,
        0x40u32 & 0x2u32 == 0,
        0x40u32 & 0x4u32 == 0,
        0x40u32 & 0x8u32 == 0,
        0x40u32 & 0x10u32 == 0,
        0x40u32 & 0x20u32 == 0,
        0x40u32 & 0x40u32 != 0,
        0x40u32 & 0x80u32 == 0,
        0x40u32 & 0x100u32 == 0,
        0x40u32 & 0x200u32 == 0,
        0x40u32 & 0x400u32 == 0,
        0x40u32 & 0x800u32 == 0,
        0x40u32 & 0x1000u32 == 0,
        0x40u32 & 0x2000u32 == 0,
        0x40u32 & 0x4000u32 == 0,
        0x40u32 & 0x8000u32 == 0,
        0x40u32 & 0x10000u32 == 0,
        0x80u32 & 0x1u32 == 0,
        0x80u32 & 0x2u32 == 0,
        0x80u32 & 0x4u32 == 0,
        0x80u32 & 0x8u32 == 0,
        0x80u32 & 0x10u32 == 0,
        0x80u32 & 0x20u32 == 0,
        0x80u32 & 0x40u32 == 0,
        0x80u32 & 0x80u32 != 0,
        0x80u32 & 0x100u32 == 0,
        0x80u32 & 0x200u32 == 0,
        0x80u32 & 0x400u32 == 0,
        0x80u32 & 0x800u32 == 0,
        0x80u32 & 0x1000u32 == 0,
        0x80u32 & 0x2000u32 == 0,
        0x80u32 & 0x4000u32 == 0,
        0x80u32 & 0x8000u32 == 0,
        0x80u32 & 0x10000u32 == 0,
        0x100u32 & 0x1u32 == 0,
        0x100u32 & 0x2u32 == 0,
        0x100u32 & 0x4u32 == 0,
        0x100u32 & 0x8u32 == 0,
        0x100u32 & 0x10u32 == 0,
        0x100u32 & 0x20u32 == 0,
        0x100u32 & 0x40u32 == 0,
        0x100u32 & 0x80u32 == 0,
        0x100u32 & 0x100u32 != 0,
        0x100u32 & 0x200u32 == 0,
        0x100u32 & 0x400u32 == 0,
        0x100u32 & 0x800u32 == 0,
        0x100u32 & 0x1000u32 == 0,
        0x100u32 & 0x2000u32 == 0,
        0x100u32 & 0x4000u32 == 0,
        0x100u32 & 0x8000u32 == 0,
        0x100u32 & 0x10000u32 == 0,
        0x200u32 & 0x1u32 == 0,
        0x200u32 & 0x2u32 == 0,
        0x200u32 & 0x4u32 == 0,
        0x200u32 & 0x8u32 == 0,
        0x200u32 & 0x10u32 == 0,
        0x200u32 & 0x20u32 == 0,
        0x200u32 & 0x40u32 == 0,
        0x200u32 & 0x80u32 == 0,
        0x200u32 & 0x100u32 == 0,
        0x200u32 & 0x200u32 != 0,
        0x200u32 & 0x400u32 == 0,
        0x200u32 & 0x800u32 == 0,
        0x200u32 & 0x1000u32 == 0,
        0x200u32 & 0x2000u32 == 0,
        0x200u32 & 0x4000u32 == 0,
        0x200u32 & 0x8000u32 == 0,
        0x200u32 & 0x10000u32 == 0,
        0x400u32 & 0x1u32 == 0,
        0x400u32 & 0x2u32 == 0,
        0x400u32 & 0x4u32 == 0,
        0x400u32 & 0x8u32 == 0,
        0x400u32 & 0x10u32 == 0,
        0x400u32 & 0x20u32 == 0,
        0x400u32 & 0x40u32 == 0,
        0x400u32 & 0x80u32 == 0,
        0x400u32 & 0x100u32 == 0,
        0x400u32 & 0x200u32 == 0,
        0x400u32 & 0x400u32 != 0,
        0x400u32 & 0x800u32 == 0,
        0x400u32 & 0x1000u32 == 0,
        0x400u32 & 0x2000u32 == 0,
        0x400u32 & 0x4000u32 == 0,
        0x400u32 & 0x8000u32 == 0,
        0x400u32 & 0x10000u32 == 0,
        0x800u32 & 0x1u32 == 0,
        0x800u32 & 0x2u32 == 0,
        0x800u32 & 0x4u32 == 0,
        0x800u32 & 0x8u32 == 0,
        0x800u32 & 0x10u32 == 0,
        0x800u32 & 0x20u32 == 0,
        0x800u32 & 0x40u32 == 0,
        0x800u32 & 0x80u32 == 0,
        0x800u32 & 0x100u32 == 0,
        0x800u32 & 0x200u32 == 0,
        0x800u32 & 0x400u32 == 0,
        0x800u32 & 0x800u32 != 0,
        0x800u32 & 0x1000u32 == 0,
        0x800u32 & 0x2000u32 == 0,
        0x800u32 & 0x4000u32 == 0,
        0x800u32 & 0x8000u32 == 0,
        0x800u32 & 0x10000u32 == 0,
        0x1000u32 & 0x1u32 == 0,
        0x1000u32 & 0x2u32 == 0,
        0x1000u32 & 0x4u32 == 0,
        0x1000u32 & 0x8u32 == 0,
        0x1000u32 & 0x10u32 == 0,
        0x1000u32 & 0x20u32 == 0,
        0x1000u32 & 0x40u32 == 0,
        0x1000u32 & 0x80u32 == 0,
        0x1000u32 & 0x100u32 == 0,
        0x1000u32 & 0x200u32 == 0,
        0x1000u32 & 0x400u32 == 0,
        0x1000u32 & 0x800u32 == 0,
        0x1000u32 & 0x1000u32 != 0,
        0x1000u32 & 0x2000u32 == 0,
        0x1000u32 & 0x4000u32 == 0,
        0x1000u32 & 0x8000u32 == 0,
        0x1000u32 & 0x10000u32 == 0,
        0x2000u32 & 0x1u32 == 0,
        0x2000u32 & 0x2u32 == 0,
        0x2000u32 & 0x4u32 == 0,
        0x2000u32 & 0x8u32 == 0,
        0x2000u32 & 0x10u32 == 0,
        0x2000u32 & 0x20u32 == 0,
        0x2000u32 & 0x40u32 == 0,
        0x2000u32 & 0x80u32 == 0,
        0x2000u32 & 0x100u32 == 0,
        0x2000u32 & 0x200u32 == 0,
        0x2000u32 & 0x400u32 == 0,
        0x2000u32 & 0x800u32 == 0,
        0x2000u32 & 0x1000u32 == 0,
        0x2000u32 & 0x2000u32 != 0,
        0x2000u32 & 0x4000u32 == 0,
        0x2000u32 & 0x8000u32 == 0,
        0x2000u32 & 0x10000u32 == 0,
        0x4000u32 & 0x1u32 == 0,
        0x4000u32 & 0x2u32 == 0,
        0x4000u32 & 0x4u32 == 0,
        0x4000u32 & 0x8u32 == 0,
        0x4000u32 & 0x10u32 == 0,
        0x4000u32 & 0x20u32 == 0,
        0x4000u32 & 0x40u32 == 0,
        0x4000u32 & 0x80u32 == 0,
        0x4000u32 & 0x100u32 == 0,
        0x4000u32 & 0x200u32 == 0,
        0x4000u32 & 0x400u32 == 0,
        0x4000u32 & 0x800u32 == 0,
        0x4000u32 & 0x1000u32 == 0,
        0x4000u32 & 0x2000u32 == 0,
        0x4000u32 & 0x4000u32 != 0,
        0x4000u32 & 0x8000u32 == 0,
        0x4000u32 & 0x10000u32 == 0,
        0x8000u32 & 0x1u32 == 0,
        0x8000u32 & 0x2u32 == 0,
        0x8000u32 & 0x4u32 == 0,
        0x8000u32 & 0x8u32 == 0,
        0x8000u32 & 0x10u32 == 0,
        0x8000u32 & 0x20u32 == 0,
        0x8000u32 & 0x40u32 == 0,
        0x8000u32 & 0x80u32 == 0,
        0x8000u32 & 0x100u32 == 0,
        0x8000u32 & 0x200u32 == 0,
        0x8000u32 & 0x400u32 == 0,
        0x8000u32 & 0x800u32 == 0,
        0x8000u32 & 0x1000u32 == 0,
        0x8000u32 & 0x2000u32 == 0,
        0x8000u32 & 0x4000u32 == 0,
        0x8000u32 & 0x8000u32 != 0,
        0x8000u32 & 0x10000u32 == 0,
        0x10000u32 & 0x1u32 == 0,
        0x10000u32 & 0x2u32 == 0,
        0x10000u32 & 0x4u32 == 0,
        0x10000u32 & 0x8u32 == 0,
        0x10000u32 & 0x10u32 == 0,
        0x10000u32 & 0x20u32 == 0,
        0x10000u32 & 0x40u32 == 0,
        0x10000u32 & 0x80u32 == 0,
        0x10000u32 & 0x100u32 == 0,
        0x10000u32 & 0x200u32 == 0,
        0x10000u32 & 0x400u32 == 0,
        0x10000u32 & 0x800u32 == 0,
        0x10000u32 & 0x1000u32 == 0,
        0x10000u32 & 0x2000u32 == 0,
        0x10000u32 & 0x4000u32 == 0,
        0x10000u32 & 0x8000u32 == 0,
        0x10000u32 & 0x10000u32 != 0,
        0x107ffu32 & 0x1u32 != 0,
        0x107ffu32 & 0x2u32 != 0,
        0x107ffu32 & 0x4u32 != 0,
        0x107ffu32 & 0x8u32 != 0,
        0x107ffu32 & 0x10u32 != 0,
        0x107ffu32 & 0x20u32 != 0,
        0x107ffu32 & 0x40u32 != 0,
        0x107ffu32 & 0x80u32 != 0,
        0x107ffu32 & 0x100u32 != 0,
        0x107ffu32 & 0x200u32 != 0,
        0x107ffu32 & 0x400u32 != 0,
        0x107ffu32 & 0x800u32 == 0,
        0x107ffu32 & 0x1000u32 == 0,
        0x107ffu32 & 0x2000u32 == 0,
        0x107ffu32 & 0x4000u32 == 0,
        0x107ffu32 & 0x8000u32 == 0,
        0x107ffu32 & 0x10000u32 != 0,
        0u32 & 0x1u32 == 0,
        0u32 & 0x2u32 == 0,
        0u32 & 0x4u32 == 0,
        0u32 & 0x8u32 == 0,
        0u32 & 0x10u32 == 0,
        0u32 & 0x20u32 == 0,
        0u32 & 0x40u32 == 0,
        0u32 & 0x80u32 == 0,
        0u32 & 0x100u32 == 0,
        0u32 & 0x200u32 == 0,
        0u32 & 0x400u32 == 0,
        0u32 & 0x800u32 == 0,
        0u32 & 0x1000u32 == 0,
        0u32 & 0x2000u32 == 0,
        0u32 & 0x4000u32 == 0,
        0u32 & 0x8000u32 == 0,
        0u32 & 0x10000u32 == 0,
        0x1u32 | 0x2u32 | 0x4u32 | 0x8u32 | 0x10u32 | 0x20u32 | 0x40u32 | 0x80u32 | 0x100u32 | 0x200u32 | 0x400u32 | 0x10000u32 == 0x107ffu32,
{
}

/// Each flag stands for exactly one io-uring operation code.
pub proof fn law_each_flag_one_code()
    ensures
        codes_of(READ) == seq![22u8],
        codes_of(READV) == seq![1u8],
        codes_of(WRITE) == seq![23u8],
        codes_of(WRITEV) == seq![2u8],
        codes_of(FSYNC) == seq![3u8],
        codes_of(ACCEPT) == seq![13u8],
        codes_of(CONNECT) == seq![16u8],
        codes_of(RECV) == seq![27u8],
        codes_of(SEND) == seq![26u8],
        codes_of(RECV_MSG) == seq![10u8],
        codes_of(SEND_MSG) == seq![9u8],
        codes_of(ASYNC_CANCEL) == seq![14u8],
        codes_of(OPEN_AT) == seq![18u8],
        codes_of(CLOSE) == seq![19u8],
        codes_of(SPLICE) == seq![30u8],
        codes_of(SHUTDOWN) == seq![34u8],
        codes_of(POLL_ADD) == seq![6u8],
        codes_of(0) == Seq::<u8>::empty(),
{
    lemma_flag_bits();
    assert(codes_of(READ) =~= seq![22u8]);
    assert(codes_of(READV) =~= seq![1u8]);
    assert(codes_of(WRITE) =~= seq![23u8]);
    assert(codes_of(WRITEV) =~= seq![2u8]);
    assert(codes_of(FSYNC) =~= seq![3u8]);
    assert(codes_of(ACCEPT) =~= seq![13u8]);
    assert(codes_of(CONNECT) =~= seq![16u8]);
    assert(codes_of(RECV) =~= seq![27u8]);
    assert(codes_of(SEND) =~= seq![26u8]);
    assert(codes_of(RECV_MSG) =~= seq![10u8]);
    assert(codes_of(SEND_MSG) =~= seq![9u8]);
    assert(codes_of(ASYNC_CANCEL) =~= seq![14u8]);
    assert(codes_of(OPEN_AT) =~= seq![18u8]);
    assert(codes_of(CLOSE) =~= seq![19u8]);
    assert(codes_of(SPLICE) =~= seq![30u8]);
    assert(codes_of(SHUTDOWN) =~= seq![34u8]);
    assert(codes_of(POLL_ADD) =~= seq![6u8]);
    assert(codes_of(0) =~= Seq::<u8>::empty());
}

/// The basic flags stand for the plain and vectored reads and writes,
/// fsync, accept, connect, send and receive with and without messages,
/// and poll, in that order.
pub proof fn law_basic_codes()
    ensures
        codes_of(
            READ | READV | WRITE | WRITEV | FSYNC | ACCEPT | CONNECT | RECV | SEND | RECV_MSG
                | SEND_MSG | POLL_ADD,
        ) == seq![22u8, 1, 23, 2, 3, 13, 16, 27, 26, 10, 9, 6],
{
    lemma_flag_bits();
    assert(codes_of(
        READ | READV | WRITE | WRITEV | FSYNC | ACCEPT | CONNECT | RECV | SEND | RECV_MSG
            | SEND_MSG | POLL_ADD,
    ) =~= seq![22u8, 1, 23, 2, 3, 13, 16, 27, 26, 10, 9, 6]);
}


proof fn lemma_extend_codes(s: Seq<u8>, bits: u32, mask: u32, code: u8, seen: Set<u8>)
    requires
        s.no_duplicates(),
        forall|i: int| 0 <= i < s.len() ==> seen.contains(#[trigger] s[i]),
        !seen.contains(code),
    ensures
        (s + code_if(bits, mask, code)).no_duplicates(),
        forall|i: int|
            0 <= i < (s + code_if(bits, mask, code)).len() ==> seen.insert(code).contains(
                #[trigger] (s + code_if(bits, mask, code))[i],
            ),
        forall|c: u8|
            (s + code_if(bits, mask, code)).contains(c) <==> (s.contains(c) || (c == code && bits
                & mask != 0)),
{
    let t = s + code_if(bits, mask, code);
    assert forall|c: u8| t.contains(c) <==> (s.contains(c) || (c == code && bits & mask != 0)) by {
        if t.contains(c) {
            let i = choose|i: int| 0 <= i < t.len() && t[i] == c;
            if i >= s.len() {
                assert(c == code && bits & mask != 0);
            }
        }
        if s.contains(c) {
            let i = choose|i: int| 0 <= i < s.len() && s[i] == c;
            assert(t[i] == c);
        }
        if c == code && bits & mask != 0 {
            assert(t[s.len() as int] == c);
        }
    }
}

proof fn lemma_codes_no_duplicates(bits: u32)
    ensures
        codes_of(bits).no_duplicates(),
{
    let s0 = Seq::<u8>::empty();
    let seen0 = Set::<u8>::empty();
    lemma_extend_codes(s0, bits, READ, 22u8, seen0);
    let s1 = s0 + code_if(bits, READ, 22u8);
    let seen1 = seen0.insert(22u8);
    lemma_extend_codes(s1, bits, READV, 1u8, seen1);
    let s2 = s1 + code_if(bits, READV, 1u8);
    let seen2 = seen1.insert(1u8);
    lemma_extend_codes(s2, bits, WRITE, 23u8, seen2);
    let s3 = s2 + code_if(bits, WRITE, 23u8);
    let seen3 = seen2.insert(23u8);
    lemma_extend_codes(s3, bits, WRITEV, 2u8, seen3);
    let s4 = s3 + code_if(bits, WRITEV, 2u8);
    let seen4 = seen3.insert(2u8);
    lemma_extend_codes(s4, bits, FSYNC, 3u8, seen4);
    let s5 = s4 + code_if(bits, FSYNC, 3u8);
    let seen5 = seen4.insert(3u8);
    lemma_extend_codes(s5, bits, ACCEPT, 13u8, seen5);
    let s6 = s5 + code_if(bits, ACCEPT, 13u8);
    let seen6 = seen5.insert(13u8);
    lemma_extend_codes(s6, bits, CONNECT, 16u8, seen6);
    let s7 = s6 + code_if(bits, CONNECT, 16u8);
    let seen7 = seen6.insert(16u8);
    lemma_extend_codes(s7, bits, RECV, 27u8, seen7);
    let s8 = s7 + code_if(bits, RECV, 27u8);
    let seen8 = seen7.insert(27u8);
    lemma_extend_codes(s8, bits, SEND, 26u8, seen8);
    let s9 = s8 + code_if(bits, SEND, 26u8);
    let seen9 = seen8.insert(26u8);
    lemma_extend_codes(s9, bits, RECV_MSG, 10u8, seen9);
    let s10 = s9 + code_if(bits, RECV_MSG, 10u8);
    let seen10 = seen9.insert(10u8);
    lemma_extend_codes(s10, bits, SEND_MSG, 9u8, seen10);
    let s11 = s10 + code_if(bits, SEND_MSG, 9u8);
    let seen11 = seen10.insert(9u8);
    lemma_extend_codes(s11, bits, ASYNC_CANCEL, 14u8, seen11);
    let s12 = s11 + code_if(bits, ASYNC_CANCEL, 14u8);
    let seen12 = seen11.insert(14u8);
    lemma_extend_codes(s12, bits, OPEN_AT, 18u8, seen12);
    let s13 = s12 + code_if(bits, OPEN_AT, 18u8);
    let seen13 = seen12.insert(18u8);
    lemma_extend_codes(s13, bits, CLOSE, 19u8, seen13);
    let s14 = s13 + code_if(bits, CLOSE, 19u8);
    let seen14 = seen13.insert(19u8);
    lemma_extend_codes(s14, bits, SPLICE, 30u8, seen14);
    let s15 = s14 + code_if(bits, SPLICE, 30u8);
    let seen15 = seen14.insert(30u8);
    lemma_extend_codes(s15, bits, SHUTDOWN, 34u8, seen15);
    let s16 = s15 + code_if(bits, SHUTDOWN, 34u8);
    let seen16 = seen15.insert(34u8);
    lemma_extend_codes(s16, bits, POLL_ADD, 6u8, seen16);
    let s17 = s16 + code_if(bits, POLL_ADD, 6u8);
    let seen17 = seen16.insert(6u8);
    assert(s17 == codes_of(bits));
}

proof fn lemma_concat_contains(a: Seq<u8>, b: Seq<u8>, c: u8)
    ensures
        (a + b).contains(c) <==> a.contains(c) || b.contains(c),
{
    if (a + b).contains(c) {
        let i = choose|i: int| 0 <= i < (a + b).len() && (a + b)[i] == c;
        if i < a.len() {
            assert(a[i] == c);
        } else {
            assert(b[i - a.len()] == c);
        }
    }
    if a.contains(c) {
        let i = choose|i: int| 0 <= i < a.len() && a[i] == c;
        assert((a + b)[i] == c);
    }
    if b.contains(c) {
        let i = choose|i: int| 0 <= i < b.len() && b[i] == c;
        assert((a + b)[a.len() + i] == c);
    }
}

proof fn lemma_code_if_contains(bits: u32, mask: u32, code: u8, c: u8)
    ensures
        code_if(bits, mask, code).contains(c) <==> (c == code && bits & mask != 0),
{
    if c == code && bits & mask != 0 {
        assert(code_if(bits, mask, code)[0] == c);
    }
}

proof fn lemma_codes_contains(bits: u32, c: u8)
    ensures
        codes_of(bits).contains(c) <==> (
            (c == 22u8 && bits & READ != 0)
            || (c == 1u8 && bits & READV != 0)
            || (c == 23u8 && bits & WRITE != 0)
            || (c == 2u8 && bits & WRITEV != 0)
            || (c == 3u8 && bits & FSYNC != 0)
            || (c == 13u8 && bits & ACCEPT != 0)
            || (c == 16u8 && bits & CONNECT != 0)
            || (c == 27u8 && bits & RECV != 0)
            || (c == 26u8 && bits & SEND != 0)
            || (c == 10u8 && bits & RECV_MSG != 0)
            || (c == 9u8 && bits & SEND_MSG != 0)
            || (c == 14u8 && bits & ASYNC_CANCEL != 0)
            || (c == 18u8 && bits & OPEN_AT != 0)
            || (c == 19u8 && bits & CLOSE != 0)
            || (c == 30u8 && bits & SPLICE != 0)
            || (c == 34u8 && bits & SHUTDOWN != 0)
            || (c == 6u8 && bits & POLL_ADD != 0)
        ),
{
    let s0 = Seq::<u8>::empty();
    lemma_code_if_contains(bits, READ, 22u8, c);
    lemma_concat_contains(s0, code_if(bits, READ, 22u8), c);
    let s1 = s0 + code_if(bits, READ, 22u8);
    lemma_code_if_contains(bits, READV, 1u8, c);
    lemma_concat_contains(s1, code_if(bits, READV, 1u8), c);
    let s2 = s1 + code_if(bits, READV, 1u8);
    lemma_code_if_contains(bits, WRITE, 23u8, c);
    lemma_concat_contains(s2, code_if(bits, WRITE, 23u8), c);
    let s3 = s2 + code_if(bits, WRITE, 23u8);
    lemma_code_if_contains(bits, WRITEV, 2u8, c);
    lemma_concat_contains(s3, code_if(bits, WRITEV, 2u8), c);
    let s4 = s3 + code_if(bits, WRITEV, 2u8);
    lemma_code_if_contains(bits, FSYNC, 3u8, c);
    lemma_concat_contains(s4, code_if(bits, FSYNC, 3u8), c);
    let s5 = s4 + code_if(bits, FSYNC, 3u8);
    lemma_code_if_contains(bits, ACCEPT, 13u8, c);
    lemma_concat_contains(s5, code_if(bits, ACCEPT, 13u8), c);
    let s6 = s5 + code_if(bits, ACCEPT, 13u8);
    lemma_code_if_contains(bits, CONNECT, 16u8, c);
    lemma_concat_contains(s6, code_if(bits, CONNECT, 16u8), c);
    let s7 = s6 + code_if(bits, CONNECT, 16u8);
    lemma_code_if_contains(bits, RECV, 27u8, c);
    lemma_concat_contains(s7, code_if(bits, RECV, 27u8), c);
    let s8 = s7 + code_if(bits, RECV, 27u8);
    lemma_code_if_contains(bits, SEND, 26u8, c);
    lemma_concat_contains(s8, code_if(bits, SEND, 26u8), c);
    let s9 = s8 + code_if(bits, SEND, 26u8);
    lemma_code_if_contains(bits, RECV_MSG, 10u8, c);
    lemma_concat_contains(s9, code_if(bits, RECV_MSG, 10u8), c);
    let s10 = s9 + code_if(bits, RECV_MSG, 10u8);
    lemma_code_if_contains(bits, SEND_MSG, 9u8, c);
    lemma_concat_contains(s10, code_if(bits, SEND_MSG, 9u8), c);
    let s11 = s10 + code_if(bits, SEND_MSG, 9u8);
    lemma_code_if_contains(bits, ASYNC_CANCEL, 14u8, c);
    lemma_concat_contains(s11, code_if(bits, ASYNC_CANCEL, 14u8), c);
    let s12 = s11 + code_if(bits, ASYNC_CANCEL, 14u8);
    lemma_code_if_contains(bits, OPEN_AT, 18u8, c);
    lemma_concat_contains(s12, code_if(bits, OPEN_AT, 18u8), c);
    let s13 = s12 + code_if(bits, OPEN_AT, 18u8);
    lemma_code_if_contains(bits, CLOSE, 19u8, c);
    lemma_concat_contains(s13, code_if(bits, CLOSE, 19u8), c);
    let s14 = s13 + code_if(bits, CLOSE, 19u8);
    lemma_code_if_contains(bits, SPLICE, 30u8, c);
    lemma_concat_contains(s14, code_if(bits, SPLICE, 30u8), c);
    let s15 = s14 + code_if(bits, SPLICE, 30u8);
    lemma_code_if_contains(bits, SHUTDOWN, 34u8, c);
    lemma_concat_contains(s15, code_if(bits, SHUTDOWN, 34u8), c);
    let s16 = s15 + code_if(bits, SHUTDOWN, 34u8);
    lemma_code_if_contains(bits, POLL_ADD, 6u8, c);
    lemma_concat_contains(s16, code_if(bits, POLL_ADD, 6u8), c);
    let s17 = s16 + code_if(bits, POLL_ADD, 6u8);
    assert(s17 == codes_of(bits));
}

/// No code is given twice, and the code of a flag is given exactly when
/// the flag is set.
pub proof fn law_codes_distinct(bits: u32)
    ensures
        codes_of(bits).no_duplicates(),
        codes_of(bits).contains(22u8) <==> bits & READ != 0,
        codes_of(bits).contains(1u8) <==> bits & READV != 0,
        codes_of(bits).contains(23u8) <==> bits & WRITE != 0,
        codes_of(bits).contains(2u8) <==> bits & WRITEV != 0,
        codes_of(bits).contains(3u8) <==> bits & FSYNC != 0,
        codes_of(bits).contains(13u8) <==> bits & ACCEPT != 0,
        codes_of(bits).contains(16u8) <==> bits & CONNECT != 0,
        codes_of(bits).contains(27u8) <==> bits & RECV != 0,
        codes_of(bits).contains(26u8) <==> bits & SEND != 0,
        codes_of(bits).contains(10u8) <==> bits & RECV_MSG != 0,
        codes_of(bits).contains(9u8) <==> bits & SEND_MSG != 0,
        codes_of(bits).contains(14u8) <==> bits & ASYNC_CANCEL != 0,
        codes_of(bits).contains(18u8) <==> bits & OPEN_AT != 0,
        codes_of(bits).contains(19u8) <==> bits & CLOSE != 0,
        codes_of(bits).contains(30u8) <==> bits & SPLICE != 0,
        codes_of(bits).contains(34u8) <==> bits & SHUTDOWN != 0,
        codes_of(bits).contains(6u8) <==> bits & POLL_ADD != 0,
{
    lemma_codes_no_duplicates(bits);
    lemma_codes_contains(bits, 22u8);
    lemma_codes_contains(bits, 1u8);
    lemma_codes_contains(bits, 23u8);
    lemma_codes_contains(bits, 2u8);
    lemma_codes_contains(bits, 3u8);
    lemma_codes_contains(bits, 13u8);
    lemma_codes_contains(bits, 16u8);
    lemma_codes_contains(bits, 27u8);
    lemma_codes_contains(bits, 26u8);
    lemma_codes_contains(bits, 10u8);
    lemma_codes_contains(bits, 9u8);
    lemma_codes_contains(bits, 14u8);
    lemma_codes_contains(bits, 18u8);
    lemma_codes_contains(bits, 19u8);
    lemma_codes_contains(bits, 30u8);
    lemma_codes_contains(bits, 34u8);
    lemma_codes_contains(bits, 6u8);
}

} // verus!
