use vstd::prelude::*;
use vstd::bytes::{spec_u32_from_le_bytes, spec_u32_to_le_bytes, u32_from_le_bytes};
use vstd::slice::{slice_subrange, slice_to_vec};
use crate::buf_result::Buffer;

verus! {

/// Size of the header that the kernel writes at the start of a buffer of a
/// multishot `recvmsg`.
pub const HEADER_LEN: usize = 16;

/// Room kept for the source address after the header (the size of a
/// socket address storage).
pub const NAME_LEN: usize = 128;

/// The header of a buffer of a multishot `recvmsg`: the lengths of the
/// source address, of the ancillary data and of the payload, and the flags.
#[derive(Debug, Clone, Copy, PartialEq, Eq, Structural)]
pub struct RecvMsgOut {
    pub namelen: u32,
    pub controllen: u32,
    pub payloadlen: u32,
    pub flags: u32,
}

/// The header stored in the first bytes of `b`.
pub open spec fn header_of(b: Seq<u8>) -> RecvMsgOut {
    RecvMsgOut {
        namelen: spec_u32_from_le_bytes(b.subrange(0, 4)),
        controllen: spec_u32_from_le_bytes(b.subrange(4, 8)),
        payloadlen: spec_u32_from_le_bytes(b.subrange(8, 12)),
        flags: spec_u32_from_le_bytes(b.subrange(12, 16)),
    }
}

/// The bytes of a header.
pub open spec fn header_bytes(h: RecvMsgOut) -> Seq<u8> {
    spec_u32_to_le_bytes(h.namelen) + spec_u32_to_le_bytes(h.controllen) + spec_u32_to_le_bytes(
        h.payloadlen,
    ) + spec_u32_to_le_bytes(h.flags)
}

/// Where the payload starts, for ancillary room `clen`.
pub open spec fn payload_offset(clen: int) -> int {
    HEADER_LEN + NAME_LEN + clen
}

/// Whether `b` holds a whole header and, after the address and ancillary
/// room, the whole payload that the header announces.
pub open spec fn well_formed(b: Seq<u8>, clen: int) -> bool {
    &&& b.len() >= HEADER_LEN
    &&& b.len() >= payload_offset(clen) + header_of(b).payloadlen
}

/// A buffer laid out as the kernel writes it: header, address room,
/// ancillary room, payload.
pub open spec fn layout(h: RecvMsgOut, name: Seq<u8>, control: Seq<u8>, payload: Seq<u8>) -> Seq<u8> {
    header_bytes(h) + name + control + payload
}

/// Read the header from the first bytes of `b`.
pub fn parse_header(b: &[u8]) -> (r: RecvMsgOut)
    requires
        b@.len() >= HEADER_LEN,
    ensures
        r == header_of(b@),
{
    let namelen = u32_from_le_bytes(slice_subrange(b, 0, 4));
    let controllen = u32_from_le_bytes(slice_subrange(b, 4, 8));
    let payloadlen = u32_from_le_bytes(slice_subrange(b, 8, 12));
    let flags = u32_from_le_bytes(slice_subrange(b, 12, 16));
    RecvMsgOut { namelen, controllen, payloadlen, flags }
}

/// A buffer received by a multishot `recvmsg`, with `clen` bytes of room
/// for ancillary data.
pub struct RecvMsgMultiResultImpl {
    buffer: Buffer,
    clen: usize,
}

impl RecvMsgMultiResultImpl {
    /// The received buffer.
    pub closed spec fn buffer(&self) -> Buffer {
        self.buffer
    }

    /// The received bytes.
    pub open spec fn bytes(&self) -> Seq<u8> {
        self.buffer().room().subrange(0, self.buffer().init_len() as int)
    }

    /// The room for ancillary data.
    pub closed spec fn control_room(&self) -> int {
        self.clen as int
    }

    /// The received bytes hold the header and the payload it announces.
    #[verifier::type_invariant]
    closed spec fn holds_message(&self) -> bool {
        &&& self.buffer.wf()
        &&& well_formed(self.buffer.room().subrange(0, self.buffer.init_len() as int), self.clen as int)
    }

    /// Wrap a received buffer; it must hold the header and the announced
    /// payload.
    pub fn new(buffer: Buffer, clen: usize) -> (r: Self)
        requires
            buffer.wf(),
            well_formed(buffer.room().subrange(0, buffer.init_len() as int), clen as int),
        ensures
            r.buffer() == buffer,
            r.control_room() == clen,
    {
        RecvMsgMultiResultImpl { buffer, clen }
    }

    /// The header of the buffer.
    pub fn header(&self) -> (r: RecvMsgOut)
        ensures
            r == header_of(self.bytes()),
            well_formed(self.bytes(), self.control_room()),
    {
        proof {
            use_type_invariant(self);
        }
        parse_header(self.buffer.as_init())
    }

    /// The payload: everything after the address and ancillary room.
    pub fn data(&self) -> (r: &[u8])
        ensures
            r@ == self.bytes().subrange(
                payload_offset(self.control_room()),
                self.bytes().len() as int,
            ),
    {
        proof {
            use_type_invariant(self);
        }
        let b = self.buffer.as_init();
        assert(b@ == self.bytes());
        let n = b.len();
        assert(well_formed(b@, self.clen as int));
        assert(n >= HEADER_LEN + NAME_LEN + self.clen);
        let offset = HEADER_LEN + NAME_LEN + self.clen;
        slice_subrange(b, offset, n)
    }

    /// The bytes of the source address, when the kernel reported one.
    pub fn addr(&self) -> (r: Option<Vec<u8>>)
        requires
            header_of(self.bytes()).namelen <= NAME_LEN,
        ensures
            header_of(self.bytes()).namelen == 0 ==> r is None,
            header_of(self.bytes()).namelen != 0 ==> (r matches Some(a) && a@
                == self.bytes().subrange(
                HEADER_LEN as int,
                HEADER_LEN + header_of(self.bytes()).namelen,
            )),
    {
        proof {
            use_type_invariant(self);
        }
        let header = self.header();
        if header.namelen == 0 {
            None
        } else {
            let n = header.namelen as usize;
            let s = slice_subrange(self.buffer.as_init(), HEADER_LEN, HEADER_LEN + n);
            Some(slice_to_vec(s))
        }
    }

    /// The ancillary data: as many bytes as the header announces, at the
    /// start of the ancillary room.
    pub fn ancillary(&self) -> (r: &[u8])
        requires
            HEADER_LEN + NAME_LEN + header_of(self.bytes()).controllen <= self.bytes().len(),
        ensures
            r@ == self.bytes().subrange(
                HEADER_LEN + NAME_LEN,
                HEADER_LEN + NAME_LEN + header_of(self.bytes()).controllen,
            ),
    {
        proof {
            use_type_invariant(self);
        }
        let header = self.header();
        let b = self.buffer.as_init();
        assert(b@ == self.bytes());
        let n = b.len();
        assert(n >= HEADER_LEN + NAME_LEN + header.controllen);
        let offset = HEADER_LEN + NAME_LEN;
        slice_subrange(b, offset, offset + header.controllen as usize)
    }

    /// The received buffer.
    pub fn into_inner(self) -> (r: Buffer)
        ensures
            r == self.buffer(),
    {
        self.buffer
    }
}

/// A buffer laid out as the kernel writes it reads back as written: the
/// header, the payload after the address and ancillary room, and the
/// ancillary data at the start of its room.
pub proof fn law_layout_reads_back(
    h: RecvMsgOut,
    name: Seq<u8>,
    control: Seq<u8>,
    payload: Seq<u8>,
)
    requires
        name.len() == NAME_LEN,
        payload.len() == h.payloadlen,
        h.controllen <= control.len(),
    ensures
        header_of(layout(h, name, control, payload)) == h,
        well_formed(layout(h, name, control, payload), control.len() as int),
        layout(h, name, control, payload).subrange(
            payload_offset(control.len() as int),
            layout(h, name, control, payload).len() as int,
        ) == payload,
        layout(h, name, control, payload).subrange(
            HEADER_LEN + NAME_LEN,
            HEADER_LEN + NAME_LEN + h.controllen,
        ) == control.subrange(0, h.controllen as int),
{
    vstd::bytes::lemma_auto_spec_u32_to_from_le_bytes();
    let b = layout(h, name, control, payload);
    let hb = header_bytes(h);
    assert(hb.len() == 16);
    assert(b.subrange(0, 4) =~= spec_u32_to_le_bytes(h.namelen));
    assert(b.subrange(4, 8) =~= spec_u32_to_le_bytes(h.controllen));
    assert(b.subrange(8, 12) =~= spec_u32_to_le_bytes(h.payloadlen));
    assert(b.subrange(12, 16) =~= spec_u32_to_le_bytes(h.flags));
    assert(b.subrange(payload_offset(control.len() as int), b.len() as int) =~= payload);
    assert(b.subrange(HEADER_LEN + NAME_LEN, HEADER_LEN + NAME_LEN + h.controllen) =~= control.subrange(
        0,
        h.controllen as int,
    ));
}

} // verus!
