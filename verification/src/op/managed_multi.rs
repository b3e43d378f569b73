use vstd::prelude::*;
use std::collections::VecDeque;
use crate::buf_result::{grown, BufResult, Buffer, TakeBuffer};
use crate::interest::AsRawFd;
use crate::io_result::IoError;
use crate::sqe::Sqe;
use crate::op::managed::{ReadManaged, ReadManagedAt, RecvManaged, RecvMsgManaged};
use crate::op::socket::{is_zeroed_storage, stored_addr};
use crate::recv_msg::{
    header_of, layout, law_layout_reads_back, payload_offset, well_formed, RecvMsgMultiResultImpl,
    RecvMsgOut, HEADER_LEN, NAME_LEN,
};

verus! {

/// One completion of a multishot operation. When the kernel selected a
/// buffer for it, that buffer goes back to the pool unless the completion
/// is taken.
pub struct MultishotResult<E> {
    pub result: Result<usize, IoError>,
    pub extra: E,
    pub guard: Option<u16>,
}

impl<E> MultishotResult<E> {
    /// Keep a completion and the id of the buffer selected for it.
    pub fn new(result: Result<usize, IoError>, extra: E, buffer_id: Option<u16>) -> (r: Self)
        ensures
            r.result == result,
            r.extra == extra,
            r.guard == buffer_id,
    {
        MultishotResult { result, extra, guard: buffer_id }
    }

    /// Take the completion; its buffer now belongs to whoever takes it.
    pub fn into_result(self) -> (r: BufResult<usize, E>)
        ensures
            r.0 == self.result,
            r.1 == self.extra,
    {
        BufResult(self.result, self.extra)
    }

    /// Drop the completion untaken: the id of the buffer to give back to
    /// the pool, if one was selected.
    pub fn discard(self) -> (r: Option<u16>)
        ensures
            r == self.guard,
    {
        self.guard
    }
}

/// The completion a queued multishot result is taken as.
pub open spec fn taken<E>(m: MultishotResult<E>) -> BufResult<usize, E> {
    BufResult(m.result, m.extra)
}

/// Read a file at specified position into multiple managed buffers.
pub struct ReadMultiAt<S, E> {
    inner: ReadManagedAt<S>,
    multishots: VecDeque<MultishotResult<E>>,
}

impl<S, E> ReadMultiAt<S, E> {
    /// The single-shot read it falls back to and that holds the buffer of
    /// its last completion.
    pub closed spec fn inner(&self) -> ReadManagedAt<S> {
        self.inner
    }

    /// The completions queued and not taken yet, oldest first.
    pub closed spec fn pending(&self) -> Seq<MultishotResult<E>> {
        self.multishots@
    }

    /// Create [`ReadMultiAt`]; a length beyond 32 bits is refused.
    pub fn new(fd: S, offset: u64, buffer_group: u16, len: usize) -> (r: Result<Self, IoError>)
        ensures
            len > u32::MAX ==> r == Err::<Self, IoError>(IoError::InvalidInput),
            len <= u32::MAX ==> (r matches Ok(op) && op.inner().fd == fd && op.inner().offset
                == offset && op.inner().buffer_group == buffer_group && op.inner().len == len
                && op.inner().buffer is None && op.pending().len() == 0),
    {
        let inner = ReadManagedAt::new(fd, offset, buffer_group, len)?;
        Ok(ReadMultiAt { inner, multishots: VecDeque::new() })
    }

    /// Keep the buffer that the kernel selected, if any.
    pub fn set_result(&mut self, selected: Option<Buffer>)
        ensures
            selected is Some ==> final(self).inner().buffer == selected,
            selected is None ==> final(self).inner().buffer == old(self).inner().buffer,
            final(self).pending() == old(self).pending(),
    {
        self.inner.set_result(selected);
    }

    /// Queue a completion behind the others.
    pub fn push_multishot(&mut self, res: Result<usize, IoError>, extra: E, buffer_id: Option<u16>)
        ensures
            final(self).pending() == old(self).pending().push(
                MultishotResult { result: res, extra, guard: buffer_id },
            ),
            final(self).inner() == old(self).inner(),
    {
        self.multishots.push_back(MultishotResult::new(res, extra, buffer_id));
    }

    /// Take the oldest queued completion.
    pub fn pop_multishot(&mut self) -> (r: Option<BufResult<usize, E>>)
        ensures
            old(self).pending().len() == 0 ==> r is None && final(self).pending() == old(
                self,
            ).pending(),
            old(self).pending().len() > 0 ==> r == Some(taken(old(self).pending()[0]))
                && final(self).pending() == old(self).pending().drop_first(),
            final(self).inner() == old(self).inner(),
    {
        match self.multishots.pop_front() {
            Some(m) => Some(m.into_result()),
            None => None,
        }
    }
}

impl<S, E> TakeBuffer for ReadMultiAt<S, E> {
    type Buffer = Buffer;

    open spec fn can_take(&self) -> bool {
        true
    }

    fn take_buffer(self) -> (r: Option<Buffer>)
        ensures
            r == self.inner().buffer,
    {
        self.inner.take_buffer()
    }
}

/// Read a file into multiple managed buffers.
pub struct ReadMulti<S, E> {
    inner: ReadManaged<S>,
    multishots: VecDeque<MultishotResult<E>>,
}

impl<S, E> ReadMulti<S, E> {
    /// The single-shot read it falls back to and that holds the buffer of
    /// its last completion.
    pub closed spec fn inner(&self) -> ReadManaged<S> {
        self.inner
    }

    /// The completions queued and not taken yet, oldest first.
    pub closed spec fn pending(&self) -> Seq<MultishotResult<E>> {
        self.multishots@
    }

    /// Create [`ReadMulti`]; a length beyond 32 bits is refused.
    pub fn new(fd: S, buffer_group: u16, len: usize) -> (r: Result<Self, IoError>)
        ensures
            len > u32::MAX ==> r == Err::<Self, IoError>(IoError::InvalidInput),
            len <= u32::MAX ==> (r matches Ok(op) && op.inner().fd == fd
                && op.inner().buffer_group == buffer_group && op.inner().len == len
                && op.inner().buffer is None && op.pending().len() == 0),
    {
        let inner = ReadManaged::new(fd, buffer_group, len)?;
        Ok(ReadMulti { inner, multishots: VecDeque::new() })
    }

    /// Keep the buffer that the kernel selected, if any.
    pub fn set_result(&mut self, selected: Option<Buffer>)
        ensures
            selected is Some ==> final(self).inner().buffer == selected,
            selected is None ==> final(self).inner().buffer == old(self).inner().buffer,
            final(self).pending() == old(self).pending(),
    {
        self.inner.set_result(selected);
    }

    /// Queue a completion behind the others.
    pub fn push_multishot(&mut self, res: Result<usize, IoError>, extra: E, buffer_id: Option<u16>)
        ensures
            final(self).pending() == old(self).pending().push(
                MultishotResult { result: res, extra, guard: buffer_id },
            ),
            final(self).inner() == old(self).inner(),
    {
        self.multishots.push_back(MultishotResult::new(res, extra, buffer_id));
    }

    /// Take the oldest queued completion.
    pub fn pop_multishot(&mut self) -> (r: Option<BufResult<usize, E>>)
        ensures
            old(self).pending().len() == 0 ==> r is None && final(self).pending() == old(
                self,
            ).pending(),
            old(self).pending().len() > 0 ==> r == Some(taken(old(self).pending()[0]))
                && final(self).pending() == old(self).pending().drop_first(),
            final(self).inner() == old(self).inner(),
    {
        match self.multishots.pop_front() {
            Some(m) => Some(m.into_result()),
            None => None,
        }
    }
}

impl<S, E> TakeBuffer for ReadMulti<S, E> {
    type Buffer = Buffer;

    open spec fn can_take(&self) -> bool {
        true
    }

    fn take_buffer(self) -> (r: Option<Buffer>)
        ensures
            r == self.inner().buffer,
    {
        self.inner.take_buffer()
    }
}

/// Receive data from remote into multiple managed buffers.
pub struct RecvMulti<S, E> {
    inner: RecvManaged<S>,
    multishots: VecDeque<MultishotResult<E>>,
}

impl<S, E> RecvMulti<S, E> {
    /// The single-shot receive it falls back to and that holds the buffer
    /// of its last completion.
    pub closed spec fn inner(&self) -> RecvManaged<S> {
        self.inner
    }

    /// The completions queued and not taken yet, oldest first.
    pub closed spec fn pending(&self) -> Seq<MultishotResult<E>> {
        self.multishots@
    }

    /// Create [`RecvMulti`]; a length beyond 32 bits is refused.
    pub fn new(fd: S, buffer_group: u16, len: usize, flags: i32) -> (r: Result<Self, IoError>)
        ensures
            len > u32::MAX ==> r == Err::<Self, IoError>(IoError::InvalidInput),
            len <= u32::MAX ==> (r matches Ok(op) && op.inner().fd == fd
                && op.inner().buffer_group == buffer_group && op.inner().len == len
                && op.inner().flags == flags && op.inner().buffer is None && op.pending().len()
                == 0),
    {
        let inner = RecvManaged::new(fd, buffer_group, len, flags)?;
        Ok(RecvMulti { inner, multishots: VecDeque::new() })
    }

    /// Keep the buffer that the kernel selected, if any.
    pub fn set_result(&mut self, selected: Option<Buffer>)
        ensures
            selected is Some ==> final(self).inner().buffer == selected,
            selected is None ==> final(self).inner().buffer == old(self).inner().buffer,
            final(self).pending() == old(self).pending(),
    {
        self.inner.set_result(selected);
    }

    /// Queue a completion behind the others.
    pub fn push_multishot(&mut self, res: Result<usize, IoError>, extra: E, buffer_id: Option<u16>)
        ensures
            final(self).pending() == old(self).pending().push(
                MultishotResult { result: res, extra, guard: buffer_id },
            ),
            final(self).inner() == old(self).inner(),
    {
        self.multishots.push_back(MultishotResult::new(res, extra, buffer_id));
    }

    /// Take the oldest queued completion.
    pub fn pop_multishot(&mut self) -> (r: Option<BufResult<usize, E>>)
        ensures
            old(self).pending().len() == 0 ==> r is None && final(self).pending() == old(
                self,
            ).pending(),
            old(self).pending().len() > 0 ==> r == Some(taken(old(self).pending()[0]))
                && final(self).pending() == old(self).pending().drop_first(),
            final(self).inner() == old(self).inner(),
    {
        match self.multishots.pop_front() {
            Some(m) => Some(m.into_result()),
            None => None,
        }
    }
}

impl<S, E> TakeBuffer for RecvMulti<S, E> {
    type Buffer = Buffer;

    open spec fn can_take(&self) -> bool {
        true
    }

    fn take_buffer(self) -> (r: Option<Buffer>)
        ensures
            r == self.inner().buffer,
    {
        self.inner.take_buffer()
    }
}

impl<S: AsRawFd, E> ReadMultiAt<S, E> {
    /// Read repeatedly at the operation's offset into buffers the kernel
    /// selects.
    pub fn create_entry(&self) -> (r: Sqe)
        ensures
            r == (Sqe::ReadMulti {
                fd: self.inner().fd.raw_fd(),
                len: self.inner().len,
                buf_group: self.inner().buffer_group,
                offset: self.inner().offset,
            }),
    {
        Sqe::ReadMulti {
            fd: self.inner.fd.as_raw_fd(),
            len: self.inner.len,
            buf_group: self.inner.buffer_group,
            offset: self.inner.offset,
        }
    }

    /// Where repeated reads are not available: one read.
    pub fn create_entry_fallback(&self) -> (r: Sqe)
        ensures
            r == (Sqe::Read {
                fd: self.inner().fd.raw_fd(),
                buf: 0,
                len: self.inner().len,
                offset: Some(self.inner().offset),
                buf_group: Some(self.inner().buffer_group),
            }),
    {
        self.inner.create_entry()
    }
}

impl<S: AsRawFd, E> ReadMulti<S, E> {
    /// Read repeatedly at the current file position into buffers the
    /// kernel selects.
    pub fn create_entry(&self) -> (r: Sqe)
        ensures
            r == (Sqe::ReadMulti {
                fd: self.inner().fd.raw_fd(),
                len: self.inner().len,
                buf_group: self.inner().buffer_group,
                offset: u64::MAX,
            }),
    {
        Sqe::ReadMulti {
            fd: self.inner.fd.as_raw_fd(),
            len: self.inner.len,
            buf_group: self.inner.buffer_group,
            offset: 0xffff_ffff_ffff_ffffu64,
        }
    }

    /// Where repeated reads are not available: one read.
    pub fn create_entry_fallback(&self) -> (r: Sqe)
        ensures
            r == (Sqe::Read {
                fd: self.inner().fd.raw_fd(),
                buf: 0,
                len: self.inner().len,
                offset: Some(u64::MAX),
                buf_group: Some(self.inner().buffer_group),
            }),
    {
        self.inner.create_entry()
    }
}

impl<S: AsRawFd, E> RecvMulti<S, E> {
    /// Receive repeatedly into buffers the kernel selects where the kernel
    /// (from 6.0 on) has it, else receive once.
    pub fn create_entry(&self, multishot_recv: bool) -> (r: Sqe)
        ensures
            multishot_recv ==> r == (Sqe::RecvMulti {
                fd: self.inner().fd.raw_fd(),
                buf_group: self.inner().buffer_group,
                flags: self.inner().flags,
                len: self.inner().len,
            }),
            !multishot_recv ==> r == (Sqe::Recv {
                fd: self.inner().fd.raw_fd(),
                buf: 0,
                len: self.inner().len,
                flags: self.inner().flags,
                buf_group: Some(self.inner().buffer_group),
            }),
    {
        if multishot_recv {
            Sqe::RecvMulti {
                fd: self.inner.fd.as_raw_fd(),
                buf_group: self.inner.buffer_group,
                flags: self.inner.flags,
                len: self.inner.len,
            }
        } else {
            self.create_entry_fallback()
        }
    }

    /// Where repeated receives are not available: one receive.
    pub fn create_entry_fallback(&self) -> (r: Sqe)
        ensures
            r == (Sqe::Recv {
                fd: self.inner().fd.raw_fd(),
                buf: 0,
                len: self.inner().len,
                flags: self.inner().flags,
                buf_group: Some(self.inner().buffer_group),
            }),
    {
        self.inner.create_entry()
    }
}

/// The received bytes of a buffer once `len` bytes are marked initialized.
pub open spec fn ready_bytes(b: Buffer, len: usize) -> Seq<u8> {
    b.room().subrange(0, grown(b.init_len(), len as nat) as int)
}

/// Receive messages multiple times with one multishot `recvmsg`: each
/// buffer starts with a header, followed by the room for the address and
/// for the ancillary data, and the payload.
pub struct RecvMsgMultiImpl<S, E> {
    pub fd: S,
    pub flags: i32,
    pub control_len: usize,
    pub buffer_group: u16,
    pub buffer: Option<Buffer>,
    pub multishots: VecDeque<MultishotResult<E>>,
    pub len: usize,
}

impl<S, E> RecvMsgMultiImpl<S, E> {
    /// Create [`RecvMsgMultiImpl`] with `control_len` bytes of room for
    /// ancillary data in each buffer.
    pub fn new(fd: S, buffer_group: u16, control_len: usize, flags: i32) -> (r: Self)
        ensures
            r.fd == fd,
            r.flags == flags,
            r.control_len == control_len,
            r.buffer_group == buffer_group,
            r.buffer is None,
            r.multishots@.len() == 0,
            r.len == 0,
    {
        RecvMsgMultiImpl {
            fd,
            buffer_group,
            flags,
            control_len,
            buffer: None,
            multishots: VecDeque::new(),
            len: 0,
        }
    }

    /// Keep the buffer that the kernel selected and the length it filled;
    /// a completion without a buffer changes nothing.
    pub fn set_result(&mut self, res: &Result<usize, IoError>, selected: Option<Buffer>)
        ensures
            selected is None ==> *final(self) == *old(self),
            selected is Some ==> final(self).buffer == selected,
            selected is Some && res is Ok ==> final(self).len == res.unwrap(),
            selected is Some && res is Err ==> final(self).len == old(self).len,
            final(self).control_len == old(self).control_len,
            final(self).multishots@ == old(self).multishots@,
    {
        if selected.is_none() {
            return;
        }
        self.buffer = selected;
        if let Ok(n) = res {
            self.len = *n;
        }
    }

    /// Queue a completion behind the others.
    pub fn push_multishot(&mut self, res: Result<usize, IoError>, extra: E, buffer_id: Option<u16>)
        ensures
            final(self).multishots@ == old(self).multishots@.push(
                MultishotResult { result: res, extra, guard: buffer_id },
            ),
            final(self).buffer == old(self).buffer,
            final(self).len == old(self).len,
            final(self).control_len == old(self).control_len,
    {
        self.multishots.push_back(MultishotResult::new(res, extra, buffer_id));
    }

    /// Take the oldest queued completion.
    pub fn pop_multishot(&mut self) -> (r: Option<BufResult<usize, E>>)
        ensures
            old(self).multishots@.len() == 0 ==> r is None && final(self).multishots@ == old(
                self,
            ).multishots@,
            old(self).multishots@.len() > 0 ==> r == Some(taken(old(self).multishots@[0]))
                && final(self).multishots@ == old(self).multishots@.drop_first(),
            final(self).buffer == old(self).buffer,
            final(self).len == old(self).len,
            final(self).control_len == old(self).control_len,
    {
        match self.multishots.pop_front() {
            Some(m) => Some(m.into_result()),
            None => None,
        }
    }
}

impl<S, E> TakeBuffer for RecvMsgMultiImpl<S, E> {
    type Buffer = RecvMsgMultiResultImpl;

    /// The filled length fits the buffer, and the bytes hold the header and
    /// the payload it announces.
    open spec fn can_take(&self) -> bool {
        self.buffer matches Some(b) ==> b.wf() && self.len <= b.capacity() && well_formed(
            ready_bytes(b, self.len),
            self.control_len as int,
        )
    }

    fn take_buffer(self) -> (r: Option<RecvMsgMultiResultImpl>)
        ensures
            self.buffer is None ==> r is None,
            self.buffer matches Some(b) ==> (r matches Some(m) && m.buffer().room() == b.room()
                && m.buffer().init_len() == grown(b.init_len(), self.len as nat)
                && m.control_room() == self.control_len && m.bytes() == ready_bytes(b, self.len)),
    {
        let mut buffer = self.buffer?;
        buffer.advance_to(self.len);
        Some(RecvMsgMultiResultImpl::new(buffer, self.control_len))
    }
}

/// What a receive of one message gave, kept apart: the payload, the
/// ancillary data and the source address.
pub struct RecvMsgMultiResultFallback {
    buffer: Buffer,
    control: Buffer,
    addr: Option<Vec<u8>>,
}

impl RecvMsgMultiResultFallback {
    /// The payload buffer.
    pub closed spec fn buffer(&self) -> Buffer {
        self.buffer
    }

    /// The ancillary data buffer.
    pub closed spec fn control(&self) -> Buffer {
        self.control
    }

    /// The source address, if any.
    pub closed spec fn source(&self) -> Option<Seq<u8>> {
        crate::op::socket::addr_view(self.addr)
    }

    /// Both buffers keep their initialized part within their room.
    #[verifier::type_invariant]
    closed spec fn buffers_wf(&self) -> bool {
        self.buffer.wf() && self.control.wf()
    }

    /// Keep the payload, the ancillary data and the source address.
    pub fn new(buffer: Buffer, control: Buffer, addr: Option<Vec<u8>>) -> (r: Self)
        requires
            buffer.wf(),
            control.wf(),
        ensures
            r.buffer() == buffer,
            r.control() == control,
            r.source() == crate::op::socket::addr_view(addr),
    {
        RecvMsgMultiResultFallback { buffer, control, addr }
    }

    /// The payload.
    pub fn data(&self) -> (r: &[u8])
        ensures
            r@ == crate::buf_result::init_bytes(self.buffer()),
    {
        proof {
            use_type_invariant(self);
        }
        self.buffer.as_init()
    }

    /// The source address, if any.
    pub fn addr(&self) -> (r: Option<Vec<u8>>)
        ensures
            crate::op::socket::addr_view(r) == self.source(),
    {
        match &self.addr {
            Some(a) => {
                let c = a.clone();
                assert(c@ =~= a@);
                Some(c)
            },
            None => None,
        }
    }

    /// The ancillary data.
    pub fn ancillary(&self) -> (r: &[u8])
        ensures
            r@ == crate::buf_result::init_bytes(self.control()),
    {
        proof {
            use_type_invariant(self);
        }
        self.control.as_init()
    }

    /// The payload buffer.
    pub fn into_inner(self) -> (r: Buffer)
        ensures
            r == self.buffer(),
    {
        self.buffer
    }
}

/// Receive one message at a time where multishot `recvmsg` is not
/// available.
pub struct RecvMsgMultiFallback<S> {
    pub op: RecvMsgManaged<Buffer, S>,
    pub len: usize,
}

impl<S> RecvMsgMultiFallback<S> {
    /// Create [`RecvMsgMultiFallback`], with a control buffer for the
    /// ancillary data.
    pub fn new(fd: S, buffer_group: u16, control: Buffer, flags: i32) -> (r: Self)
        ensures
            r.op.op.fd == fd,
            r.op.op.flags == flags,
            is_zeroed_storage(r.op.op.addr@),
            r.op.op.name_len == 0,
            r.op.op.buffer_group == buffer_group,
            r.op.op.buffer is None,
            r.op.control == control,
            r.op.control_len == 0,
            r.len == 0,
    {
        RecvMsgMultiFallback { op: RecvMsgManaged::new(fd, buffer_group, 0, control, flags), len: 0 }
    }

    /// Record the length received, the lengths of the address and of the
    /// ancillary data, and the buffer the kernel selected, if any.
    pub fn set_result(
        &mut self,
        res: &Result<usize, IoError>,
        msg_namelen: u32,
        msg_controllen: usize,
        selected: Option<Buffer>,
    )
        ensures
            res is Ok ==> final(self).len == res.unwrap(),
            res is Err ==> final(self).len == old(self).len,
            final(self).op.op.name_len == msg_namelen,
            selected is Some ==> final(self).op.op.buffer == selected,
            selected is None ==> final(self).op.op.buffer == old(self).op.op.buffer,
            final(self).op.op.addr@ == old(self).op.op.addr@,
            final(self).op.control == old(self).op.control,
            final(self).op.control_len == msg_controllen,
    {
        if let Ok(n) = res {
            self.len = *n;
        }
        self.op.set_result(msg_namelen, msg_controllen, selected);
    }
}

impl<S> TakeBuffer for RecvMsgMultiFallback<S> {
    type Buffer = RecvMsgMultiResultFallback;

    /// The lengths received fit their buffers.
    open spec fn can_take(&self) -> bool {
        self.op.op.buffer matches Some(b) ==> b.wf() && self.len <= b.capacity()
            && self.op.control.wf() && self.op.control_len <= self.op.control.capacity()
            && self.op.op.name_len <= self.op.op.addr@.len()
    }

    fn take_buffer(self) -> (r: Option<RecvMsgMultiResultFallback>)
        ensures
            self.op.op.buffer is None ==> r is None,
            self.op.op.buffer matches Some(b) ==> (r matches Some(m) && m.buffer().room()
                == b.room() && m.buffer().init_len() == grown(b.init_len(), self.len as nat)
                && m.control().room() == self.op.control.room() && m.control().init_len()
                == grown(self.op.control.init_len(), self.op.control_len as nat) && m.source()
                == stored_addr(self.op.op.addr@, self.op.op.name_len)),
    {
        let len = self.len;
        let ((mut buffer, mut control), addr, control_len) = self.op.take_buffer()?;
        buffer.advance_to(len);
        control.advance_to(control_len);
        Some(RecvMsgMultiResultFallback::new(buffer, control, addr))
    }
}

/// A message received by [`RecvMsgMulti`], in either form.
pub enum RecvMsgMultiResultInner {
    Impl(RecvMsgMultiResultImpl),
    Fallback(RecvMsgMultiResultFallback),
}

/// Result of [`RecvMsgMulti`].
pub struct RecvMsgMultiResult {
    pub inner: RecvMsgMultiResultInner,
}

/// The source address held in a multishot buffer.
pub open spec fn impl_source(m: RecvMsgMultiResultImpl) -> Option<Seq<u8>> {
    let n = header_of(m.bytes()).namelen;
    if n == 0 {
        None
    } else {
        Some(m.bytes().subrange(HEADER_LEN as int, HEADER_LEN + n))
    }
}

impl RecvMsgMultiResult {
    /// The payload.
    pub open spec fn payload(&self) -> Seq<u8> {
        match self.inner {
            RecvMsgMultiResultInner::Impl(m) => m.bytes().subrange(
                payload_offset(m.control_room()),
                m.bytes().len() as int,
            ),
            RecvMsgMultiResultInner::Fallback(f) => crate::buf_result::init_bytes(f.buffer()),
        }
    }

    /// The source address, if any.
    pub open spec fn source(&self) -> Option<Seq<u8>> {
        match self.inner {
            RecvMsgMultiResultInner::Impl(m) => impl_source(m),
            RecvMsgMultiResultInner::Fallback(f) => f.source(),
        }
    }

    /// The ancillary data.
    pub open spec fn ancillary_data(&self) -> Seq<u8> {
        match self.inner {
            RecvMsgMultiResultInner::Impl(m) => m.bytes().subrange(
                HEADER_LEN + NAME_LEN,
                HEADER_LEN + NAME_LEN + header_of(m.bytes()).controllen,
            ),
            RecvMsgMultiResultInner::Fallback(f) => crate::buf_result::init_bytes(f.control()),
        }
    }

    /// The payload buffer.
    pub open spec fn buffer(&self) -> Buffer {
        match self.inner {
            RecvMsgMultiResultInner::Impl(m) => m.buffer(),
            RecvMsgMultiResultInner::Fallback(f) => f.buffer(),
        }
    }

    /// The address a multishot buffer announces fits an address storage.
    pub open spec fn addr_fits(&self) -> bool {
        self.inner matches RecvMsgMultiResultInner::Impl(m) ==> header_of(m.bytes()).namelen
            <= NAME_LEN
    }

    /// The ancillary data a multishot buffer announces lies within it.
    pub open spec fn ancillary_fits(&self) -> bool {
        self.inner matches RecvMsgMultiResultInner::Impl(m) ==> HEADER_LEN + NAME_LEN
            + header_of(m.bytes()).controllen <= m.bytes().len()
    }

    /// Create [`RecvMsgMultiResult`] from a buffer received by a multishot
    /// [`RecvMsgMulti`], with `clen` bytes of room for ancillary data.
    pub fn new(buffer: Buffer, clen: usize) -> (r: Self)
        requires
            buffer.wf(),
            well_formed(crate::buf_result::init_bytes(buffer), clen as int),
        ensures
            r.inner matches RecvMsgMultiResultInner::Impl(m) && m.buffer() == buffer
                && m.control_room() == clen,
    {
        RecvMsgMultiResult { inner: RecvMsgMultiResultInner::Impl(RecvMsgMultiResultImpl::new(buffer, clen)) }
    }

    /// Get the payload data.
    pub fn data(&self) -> (r: &[u8])
        ensures
            r@ == self.payload(),
    {
        match &self.inner {
            RecvMsgMultiResultInner::Impl(m) => m.data(),
            RecvMsgMultiResultInner::Fallback(f) => f.data(),
        }
    }

    /// Get the source address if applicable.
    pub fn addr(&self) -> (r: Option<Vec<u8>>)
        requires
            self.addr_fits(),
        ensures
            crate::op::socket::addr_view(r) == self.source(),
    {
        match &self.inner {
            RecvMsgMultiResultInner::Impl(m) => m.addr(),
            RecvMsgMultiResultInner::Fallback(f) => f.addr(),
        }
    }

    /// Get the ancillary data.
    pub fn ancillary(&self) -> (r: &[u8])
        requires
            self.ancillary_fits(),
        ensures
            r@ == self.ancillary_data(),
    {
        match &self.inner {
            RecvMsgMultiResultInner::Impl(m) => m.ancillary(),
            RecvMsgMultiResultInner::Fallback(f) => f.ancillary(),
        }
    }

    /// The payload buffer.
    pub fn into_inner(self) -> (r: Buffer)
        ensures
            r == self.buffer(),
    {
        match self.inner {
            RecvMsgMultiResultInner::Impl(m) => m.into_inner(),
            RecvMsgMultiResultInner::Fallback(f) => f.into_inner(),
        }
    }
}

/// The two ways [`RecvMsgMulti`] receives: with multishot `recvmsg`, or
/// one message at a time.
pub enum RecvMsgMultiInner<S, E> {
    Impl(RecvMsgMultiImpl<S, E>),
    Fallback(RecvMsgMultiFallback<S>),
}

/// Receive data, ancillary data and source address multi times into
/// multiple managed buffers.
pub struct RecvMsgMulti<S, E> {
    pub inner: RecvMsgMultiInner<S, E>,
}

impl<S, E> RecvMsgMulti<S, E> {
    /// The completions queued and not taken yet, oldest first; a receive of
    /// one message at a time queues none.
    pub open spec fn pending(&self) -> Seq<MultishotResult<E>> {
        match self.inner {
            RecvMsgMultiInner::Impl(i) => i.multishots@,
            RecvMsgMultiInner::Fallback(_) => Seq::empty(),
        }
    }

    /// Create [`RecvMsgMulti`]: with multishot `recvmsg` where the kernel
    /// has it, else one message at a time into `control` for the ancillary
    /// data.
    pub fn new(
        fd: S,
        buffer_group: u16,
        control_len: usize,
        flags: i32,
        multishot: bool,
        control: Option<Buffer>,
    ) -> (r: Self)
        requires
            !multishot ==> control is Some,
        ensures
            multishot ==> (r.inner matches RecvMsgMultiInner::Impl(i) && i.fd == fd && i.flags
                == flags && i.control_len == control_len && i.buffer_group == buffer_group
                && i.buffer is None && i.multishots@.len() == 0 && i.len == 0),
            !multishot ==> (r.inner matches RecvMsgMultiInner::Fallback(f) && f.op.op.fd == fd
                && f.op.op.flags == flags && f.op.op.buffer_group == buffer_group
                && is_zeroed_storage(f.op.op.addr@) && f.op.op.name_len == 0
                && f.op.op.buffer is None && f.op.control == control.unwrap()
                && f.op.control_len == 0 && f.len == 0),
    {
        if multishot {
            RecvMsgMulti {
                inner: RecvMsgMultiInner::Impl(RecvMsgMultiImpl::new(fd, buffer_group, control_len, flags)),
            }
        } else {
            RecvMsgMulti {
                inner: RecvMsgMultiInner::Fallback(
                    RecvMsgMultiFallback::new(fd, buffer_group, control.unwrap(), flags),
                ),
            }
        }
    }

    /// Record a completion: the buffer the kernel selected, the length it
    /// filled and, for a single message, the lengths of its address and
    /// ancillary data.
    pub fn set_result(
        &mut self,
        res: &Result<usize, IoError>,
        msg_namelen: u32,
        msg_controllen: usize,
        selected: Option<Buffer>,
    )
        ensures
            old(self).inner matches RecvMsgMultiInner::Impl(i) ==> (final(self).inner matches RecvMsgMultiInner::Impl(j) && (selected is None ==> j == i) && (selected is Some ==> j.buffer == selected && (res is Ok ==> j.len == res.unwrap()) && (res is Err ==> j.len == i.len)) && j.control_len == i.control_len && j.multishots@ == i.multishots@),
            old(self).inner matches RecvMsgMultiInner::Fallback(f) ==> (final(self).inner matches RecvMsgMultiInner::Fallback(g) && (res is Ok ==> g.len == res.unwrap()) && (res is Err ==> g.len == f.len) && g.op.op.name_len == msg_namelen && (selected is Some ==> g.op.op.buffer == selected) && (selected is None ==> g.op.op.buffer == f.op.op.buffer) && g.op.op.addr@ == f.op.op.addr@ && g.op.control == f.op.control && g.op.control_len == msg_controllen),
    {
        match &mut self.inner {
            RecvMsgMultiInner::Impl(i) => i.set_result(res, selected),
            RecvMsgMultiInner::Fallback(f) => f.set_result(res, msg_namelen, msg_controllen, selected),
        }
    }

    /// Queue a completion behind the others; a receive of one message at a
    /// time has none to queue.
    pub fn push_multishot(&mut self, res: Result<usize, IoError>, extra: E, buffer_id: Option<u16>)
        ensures
            old(self).inner is Impl ==> final(self).pending() == old(self).pending().push(
                MultishotResult { result: res, extra, guard: buffer_id },
            ),
            old(self).inner is Fallback ==> *final(self) == *old(self),
            final(self).inner is Impl == old(self).inner is Impl,
    {
        match &mut self.inner {
            RecvMsgMultiInner::Impl(i) => i.push_multishot(res, extra, buffer_id),
            RecvMsgMultiInner::Fallback(_) => {},
        }
    }

    /// Take the oldest queued completion.
    pub fn pop_multishot(&mut self) -> (r: Option<BufResult<usize, E>>)
        ensures
            old(self).pending().len() == 0 ==> r is None && final(self).pending() == old(
                self,
            ).pending(),
            old(self).pending().len() > 0 ==> r == Some(taken(old(self).pending()[0]))
                && final(self).pending() == old(self).pending().drop_first(),
            final(self).inner is Impl == old(self).inner is Impl,
    {
        match &mut self.inner {
            RecvMsgMultiInner::Impl(i) => i.pop_multishot(),
            RecvMsgMultiInner::Fallback(_) => None,
        }
    }
}

impl<S, E> TakeBuffer for RecvMsgMulti<S, E> {
    type Buffer = RecvMsgMultiResult;

    open spec fn can_take(&self) -> bool {
        match self.inner {
            RecvMsgMultiInner::Impl(i) => i.can_take(),
            RecvMsgMultiInner::Fallback(f) => f.can_take(),
        }
    }

    fn take_buffer(self) -> (r: Option<RecvMsgMultiResult>)
        ensures
            self.inner matches RecvMsgMultiInner::Impl(i) ==> (i.buffer is None ==> r is None)
                && (i.buffer matches Some(b) ==> (r matches Some(m) && m.inner matches RecvMsgMultiResultInner::Impl(x)
                && x.buffer().room() == b.room() && x.buffer().init_len() == grown(b.init_len(), i.len as nat)
                && x.control_room() == i.control_len && x.bytes() == ready_bytes(b, i.len))),
            self.inner matches RecvMsgMultiInner::Fallback(f) ==> (f.op.op.buffer is None ==> r is None)
                && (f.op.op.buffer matches Some(b) ==> (r matches Some(m) && m.inner matches RecvMsgMultiResultInner::Fallback(x)
                && x.buffer().room() == b.room() && x.buffer().init_len() == grown(b.init_len(), f.len as nat)
                && x.control().room() == f.op.control.room() && x.control().init_len() == grown(f.op.control.init_len(), f.op.control_len as nat)
                && x.source() == stored_addr(f.op.op.addr@, f.op.op.name_len))),
    {
        match self.inner {
            RecvMsgMultiInner::Impl(i) => {
                let m = i.take_buffer()?;
                Some(RecvMsgMultiResult { inner: RecvMsgMultiResultInner::Impl(m) })
            },
            RecvMsgMultiInner::Fallback(f) => {
                let m = f.take_buffer()?;
                Some(RecvMsgMultiResult { inner: RecvMsgMultiResultInner::Fallback(m) })
            },
        }
    }
}

/// Result of [`RecvFromMulti`].
pub struct RecvFromMultiResult {
    pub inner: RecvMsgMultiResult,
}

impl RecvFromMultiResult {
    /// Create [`RecvFromMultiResult`] from a buffer received by a multishot
    /// [`RecvFromMulti`]: no room for ancillary data.
    pub fn new(buffer: Buffer) -> (r: Self)
        requires
            buffer.wf(),
            well_formed(crate::buf_result::init_bytes(buffer), 0),
        ensures
            r.inner.inner matches RecvMsgMultiResultInner::Impl(m) && m.buffer() == buffer
                && m.control_room() == 0,
    {
        RecvFromMultiResult { inner: RecvMsgMultiResult::new(buffer, 0) }
    }

    /// Get the payload data.
    pub fn data(&self) -> (r: &[u8])
        ensures
            r@ == self.inner.payload(),
    {
        self.inner.data()
    }

    /// Get the source address if applicable.
    pub fn addr(&self) -> (r: Option<Vec<u8>>)
        requires
            self.inner.addr_fits(),
        ensures
            crate::op::socket::addr_view(r) == self.inner.source(),
    {
        self.inner.addr()
    }

    /// The payload buffer.
    pub fn into_inner(self) -> (r: Buffer)
        ensures
            r == self.inner.buffer(),
    {
        self.inner.into_inner()
    }
}

/// Receive data and source address multi times into multiple managed
/// buffers.
pub struct RecvFromMulti<S, E> {
    pub op: RecvMsgMulti<S, E>,
}

impl<S, E> RecvFromMulti<S, E> {
    /// Create [`RecvFromMulti`]: a [`RecvMsgMulti`] without ancillary data.
    pub fn new(fd: S, buffer_group: u16, flags: i32, multishot: bool, control: Option<Buffer>) -> (r: Self)
        requires
            !multishot ==> control is Some,
        ensures
            multishot ==> (r.op.inner matches RecvMsgMultiInner::Impl(i) && i.fd == fd && i.flags
                == flags && i.control_len == 0 && i.buffer_group == buffer_group
                && i.buffer is None && i.multishots@.len() == 0 && i.len == 0),
            !multishot ==> (r.op.inner matches RecvMsgMultiInner::Fallback(f) && f.op.op.fd == fd
                && f.op.op.flags == flags && f.op.op.buffer_group == buffer_group
                && f.op.op.buffer is None && f.op.control == control.unwrap() && f.len == 0),
    {
        RecvFromMulti { op: RecvMsgMulti::new(fd, buffer_group, 0, flags, multishot, control) }
    }

    /// Record a completion, as [`RecvMsgMulti::set_result`] does.
    pub fn set_result(
        &mut self,
        res: &Result<usize, IoError>,
        msg_namelen: u32,
        msg_controllen: usize,
        selected: Option<Buffer>,
    )
        ensures
            old(self).op.inner matches RecvMsgMultiInner::Impl(i) ==> (final(self).op.inner matches RecvMsgMultiInner::Impl(j) && (selected is None ==> j == i) && (selected is Some ==> j.buffer == selected && (res is Ok ==> j.len == res.unwrap()) && (res is Err ==> j.len == i.len)) && j.control_len == i.control_len && j.multishots@ == i.multishots@),
            old(self).op.inner matches RecvMsgMultiInner::Fallback(f) ==> (final(self).op.inner matches RecvMsgMultiInner::Fallback(g) && (res is Ok ==> g.len == res.unwrap()) && (res is Err ==> g.len == f.len) && g.op.op.name_len == msg_namelen && (selected is Some ==> g.op.op.buffer == selected) && (selected is None ==> g.op.op.buffer == f.op.op.buffer) && g.op.op.addr@ == f.op.op.addr@ && g.op.control == f.op.control && g.op.control_len == msg_controllen),
    {
        self.op.set_result(res, msg_namelen, msg_controllen, selected);
    }

    /// Queue a completion behind the others.
    pub fn push_multishot(&mut self, res: Result<usize, IoError>, extra: E, buffer_id: Option<u16>)
        ensures
            old(self).op.inner is Impl ==> final(self).op.pending() == old(self).op.pending().push(
                MultishotResult { result: res, extra, guard: buffer_id },
            ),
            old(self).op.inner is Fallback ==> *final(self) == *old(self),
            final(self).op.inner is Impl == old(self).op.inner is Impl,
    {
        self.op.push_multishot(res, extra, buffer_id);
    }

    /// Take the oldest queued completion.
    pub fn pop_multishot(&mut self) -> (r: Option<BufResult<usize, E>>)
        ensures
            old(self).op.pending().len() == 0 ==> r is None && final(self).op.pending() == old(
                self,
            ).op.pending(),
            old(self).op.pending().len() > 0 ==> r == Some(taken(old(self).op.pending()[0]))
                && final(self).op.pending() == old(self).op.pending().drop_first(),
            final(self).op.inner is Impl == old(self).op.inner is Impl,
    {
        self.op.pop_multishot()
    }
}

impl<S, E> TakeBuffer for RecvFromMulti<S, E> {
    type Buffer = RecvFromMultiResult;

    open spec fn can_take(&self) -> bool {
        self.op.can_take()
    }

    fn take_buffer(self) -> (r: Option<RecvFromMultiResult>)
        ensures
            self.op.inner matches RecvMsgMultiInner::Impl(i) ==> (i.buffer is None ==> r is None)
                && (i.buffer matches Some(b) ==> (r matches Some(m) && m.inner.inner matches RecvMsgMultiResultInner::Impl(x)
                && x.buffer().room() == b.room() && x.buffer().init_len() == grown(b.init_len(), i.len as nat)
                && x.control_room() == i.control_len && x.bytes() == ready_bytes(b, i.len))),
            self.op.inner matches RecvMsgMultiInner::Fallback(f) ==> (f.op.op.buffer is None ==> r is None)
                && (f.op.op.buffer matches Some(b) ==> (r matches Some(m) && m.inner.inner matches RecvMsgMultiResultInner::Fallback(x)
                && x.buffer().room() == b.room() && x.buffer().init_len() == grown(b.init_len(), f.len as nat)
                && x.source() == stored_addr(f.op.op.addr@, f.op.op.name_len))),
    {
        let m = self.op.take_buffer()?;
        Some(RecvFromMultiResult { inner: m })
    }
}

/// A message that the kernel wrote into a multishot buffer reads back as
/// it was sent: the payload, the ancillary data it announces and the
/// source address it announces.
pub proof fn law_received_message_reads_back(
    m: RecvMsgMultiResult,
    h: RecvMsgOut,
    name: Seq<u8>,
    control: Seq<u8>,
    payload: Seq<u8>,
)
    requires
        m.inner matches RecvMsgMultiResultInner::Impl(x) && x.bytes() == layout(
            h,
            name,
            control,
            payload,
        ) && x.control_room() == control.len(),
        name.len() == NAME_LEN,
        payload.len() == h.payloadlen,
        h.controllen <= control.len(),
        h.namelen <= NAME_LEN,
    ensures
        m.addr_fits(),
        m.ancillary_fits(),
        m.payload() == payload,
        m.ancillary_data() == control.subrange(0, h.controllen as int),
        h.namelen == 0 ==> m.source() is None,
        h.namelen != 0 ==> m.source() == Some(name.subrange(0, h.namelen as int)),
{
    law_layout_reads_back(h, name, control, payload);
    let b = layout(h, name, control, payload);
    assert(b.subrange(HEADER_LEN as int, HEADER_LEN + h.namelen) =~= name.subrange(
        0,
        h.namelen as int,
    ));
}

/// A completion queued behind the pending ones is taken after all of
/// them, and gives back exactly the result and extra data queued.
pub proof fn law_multishot_queue_order<E>(
    pending: Seq<MultishotResult<E>>,
    result: Result<usize, IoError>,
    extra: E,
    guard: Option<u16>,
)
    ensures
        ({
            let q = pending.push(MultishotResult { result, extra, guard });
            &&& q.len() == pending.len() + 1
            &&& forall|i: int| 0 <= i < pending.len() ==> #[trigger] q[i] == pending[i]
            &&& taken(q[pending.len() as int]) == BufResult(result, extra)
        }),
{
}

} // verus!
