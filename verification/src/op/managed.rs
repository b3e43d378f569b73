use vstd::prelude::*;
use crate::buf_result::{Buffer, TakeBuffer};
use crate::io_result::IoError;
use crate::op::socket::{addr_view, is_zeroed_storage, storage_addr, stored_addr, zeroed_storage};

verus! {

/// The length a managed operation may ask for: the kernel takes a 32-bit
/// length, so a longer one is refused.
pub fn managed_len(len: usize) -> (r: Result<u32, IoError>)
    ensures
        len <= u32::MAX ==> r == Ok::<u32, IoError>(len as u32),
        len > u32::MAX ==> r == Err::<u32, IoError>(IoError::InvalidInput),
{
    if len <= 0xffff_ffffusize {
        Ok(len as u32)
    } else {
        Err(IoError::InvalidInput)
    }
}

/// Read a file at specified position into a buffer that the kernel
/// selects from a buffer group.
pub struct ReadManagedAt<S> {
    pub fd: S,
    pub offset: u64,
    pub buffer_group: u16,
    pub len: u32,
    pub buffer: Option<Buffer>,
}

impl<S> ReadManagedAt<S> {
    /// Create [`ReadManagedAt`]; a length beyond 32 bits is refused.
    pub fn new(fd: S, offset: u64, buffer_group: u16, len: usize) -> (r: Result<Self, IoError>)
        ensures
            len > u32::MAX ==> r == Err::<Self, IoError>(IoError::InvalidInput),
            len <= u32::MAX ==> (r matches Ok(op) && op.fd == fd && op.offset == offset
                && op.buffer_group == buffer_group && op.len == len && op.buffer is None),
    {
        let len = managed_len(len)?;
        Ok(ReadManagedAt { fd, offset, buffer_group, len, buffer: None })
    }

    /// Keep the buffer that the kernel selected, if any.
    pub fn set_result(&mut self, selected: Option<Buffer>)
        ensures
            selected is Some ==> final(self).buffer == selected,
            selected is None ==> final(self).buffer == old(self).buffer,
            final(self).len == old(self).len,
            final(self).offset == old(self).offset,
    {
        if selected.is_some() {
            self.buffer = selected;
        }
    }
}

impl<S> TakeBuffer for ReadManagedAt<S> {
    type Buffer = Buffer;

    open spec fn can_take(&self) -> bool {
        true
    }

    fn take_buffer(self) -> (r: Option<Buffer>)
        ensures
            r == self.buffer,
    {
        self.buffer
    }
}

/// Read a file into a buffer that the kernel selects from a buffer group.
pub struct ReadManaged<S> {
    pub fd: S,
    pub len: u32,
    pub buffer_group: u16,
    pub buffer: Option<Buffer>,
}

impl<S> ReadManaged<S> {
    /// Create [`ReadManaged`]; a length beyond 32 bits is refused.
    pub fn new(fd: S, buffer_group: u16, len: usize) -> (r: Result<Self, IoError>)
        ensures
            len > u32::MAX ==> r == Err::<Self, IoError>(IoError::InvalidInput),
            len <= u32::MAX ==> (r matches Ok(op) && op.fd == fd && op.buffer_group
                == buffer_group && op.len == len && op.buffer is None),
    {
        let len = managed_len(len)?;
        Ok(ReadManaged { fd, len, buffer_group, buffer: None })
    }

    /// Keep the buffer that the kernel selected, if any.
    pub fn set_result(&mut self, selected: Option<Buffer>)
        ensures
            selected is Some ==> final(self).buffer == selected,
            selected is None ==> final(self).buffer == old(self).buffer,
            final(self).len == old(self).len,
    {
        if selected.is_some() {
            self.buffer = selected;
        }
    }
}

impl<S> TakeBuffer for ReadManaged<S> {
    type Buffer = Buffer;

    open spec fn can_take(&self) -> bool {
        true
    }

    fn take_buffer(self) -> (r: Option<Buffer>)
        ensures
            r == self.buffer,
    {
        self.buffer
    }
}

/// Receive data from remote into a buffer that the kernel selects from a
/// buffer group.
pub struct RecvManaged<S> {
    pub fd: S,
    pub len: u32,
    pub flags: i32,
    pub buffer_group: u16,
    pub buffer: Option<Buffer>,
}

impl<S> RecvManaged<S> {
    /// Create [`RecvManaged`]; a length beyond 32 bits is refused.
    pub fn new(fd: S, buffer_group: u16, len: usize, flags: i32) -> (r: Result<Self, IoError>)
        ensures
            len > u32::MAX ==> r == Err::<Self, IoError>(IoError::InvalidInput),
            len <= u32::MAX ==> (r matches Ok(op) && op.fd == fd && op.buffer_group
                == buffer_group && op.len == len && op.flags == flags && op.buffer is None),
    {
        let len = managed_len(len)?;
        Ok(RecvManaged { fd, len, flags, buffer_group, buffer: None })
    }

    /// Keep the buffer that the kernel selected, if any.
    pub fn set_result(&mut self, selected: Option<Buffer>)
        ensures
            selected is Some ==> final(self).buffer == selected,
            selected is None ==> final(self).buffer == old(self).buffer,
            final(self).len == old(self).len,
    {
        if selected.is_some() {
            self.buffer = selected;
        }
    }
}

impl<S> TakeBuffer for RecvManaged<S> {
    type Buffer = Buffer;

    open spec fn can_take(&self) -> bool {
        true
    }

    fn take_buffer(self) -> (r: Option<Buffer>)
        ensures
            r == self.buffer,
    {
        self.buffer
    }
}

/// Receive data and source address into a buffer that the kernel selects
/// from a buffer group.
pub struct RecvFromManaged<S> {
    pub fd: S,
    pub flags: i32,
    pub addr: Vec<u8>,
    pub name_len: u32,
    pub buffer_len: usize,
    pub buffer_group: u16,
    pub buffer: Option<Buffer>,
}

impl<S> RecvFromManaged<S> {
    /// Create [`RecvFromManaged`].
    pub fn new(fd: S, buffer_group: u16, len: usize, flags: i32) -> (r: Self)
        ensures
            r.fd == fd,
            r.flags == flags,
            is_zeroed_storage(r.addr@),
            r.name_len == 0,
            r.buffer_len == len,
            r.buffer_group == buffer_group,
            r.buffer is None,
    {
        RecvFromManaged {
            fd,
            buffer_group,
            flags,
            name_len: 0,
            buffer_len: len,
            addr: zeroed_storage(),
            buffer: None,
        }
    }

    /// Record the address length the kernel reported and keep the buffer
    /// it selected, if any.
    pub fn set_result(&mut self, msg_namelen: u32, selected: Option<Buffer>)
        ensures
            final(self).name_len == msg_namelen,
            selected is Some ==> final(self).buffer == selected,
            selected is None ==> final(self).buffer == old(self).buffer,
            final(self).addr@ == old(self).addr@,
            final(self).flags == old(self).flags,
            final(self).buffer_len == old(self).buffer_len,
            final(self).buffer_group == old(self).buffer_group,
    {
        self.name_len = msg_namelen;
        if selected.is_some() {
            self.buffer = selected;
        }
    }
}

impl<S> TakeBuffer for RecvFromManaged<S> {
    type Buffer = (Buffer, Option<Vec<u8>>);

    /// The reported address length fits the storage: an address is made of
    /// that many bytes of it.
    open spec fn can_take(&self) -> bool {
        self.buffer is Some ==> self.name_len <= self.addr@.len()
    }

    /// The selected buffer and the source address: the first `name_len`
    /// bytes of the storage, none for a length of 0.
    fn take_buffer(self) -> (r: Option<(Buffer, Option<Vec<u8>>)>)
        ensures
            self.buffer is None ==> r is None,
            self.buffer is Some ==> (r matches Some(p) && p.0 == self.buffer.unwrap() && addr_view(
                p.1,
            ) == stored_addr(self.addr@, self.name_len)),
    {
        let buf = self.buffer?;
        let addr = storage_addr(&self.addr, self.name_len);
        Some((buf, addr))
    }
}

/// Receive data into a managed buffer, and ancillary data into a control
/// buffer.
pub struct RecvMsgManaged<C, S> {
    pub op: RecvFromManaged<S>,
    pub control: C,
    pub control_len: usize,
}

impl<C, S> RecvMsgManaged<C, S> {
    /// Create [`RecvMsgManaged`].
    pub fn new(fd: S, buffer_group: u16, len: usize, control: C, flags: i32) -> (r: Self)
        ensures
            r.op.fd == fd,
            r.op.flags == flags,
            is_zeroed_storage(r.op.addr@),
            r.op.name_len == 0,
            r.op.buffer_len == len,
            r.op.buffer_group == buffer_group,
            r.op.buffer is None,
            r.control == control,
            r.control_len == 0,
    {
        RecvMsgManaged { op: RecvFromManaged::new(fd, buffer_group, len, flags), control, control_len: 0 }
    }

    /// Record the lengths of the address and of the ancillary data that the
    /// kernel reported, and keep the buffer it selected, if any.
    pub fn set_result(&mut self, msg_namelen: u32, msg_controllen: usize, selected: Option<Buffer>)
        ensures
            final(self).op.name_len == msg_namelen,
            selected is Some ==> final(self).op.buffer == selected,
            selected is None ==> final(self).op.buffer == old(self).op.buffer,
            final(self).op.addr@ == old(self).op.addr@,
            final(self).control == old(self).control,
            final(self).control_len == msg_controllen,
    {
        self.op.set_result(msg_namelen, selected);
        self.control_len = msg_controllen;
    }
}

impl<C, S> TakeBuffer for RecvMsgManaged<C, S> {
    type Buffer = ((Buffer, C), Option<Vec<u8>>, usize);

    /// The reported address length fits the storage.
    open spec fn can_take(&self) -> bool {
        self.op.can_take()
    }

    fn take_buffer(self) -> (r: Option<((Buffer, C), Option<Vec<u8>>, usize)>)
        ensures
            self.op.buffer is None ==> r is None,
            self.op.buffer is Some ==> (r matches Some(p) && p.0.0 == self.op.buffer.unwrap()
                && p.0.1 == self.control && p.2 == self.control_len && addr_view(p.1)
                == stored_addr(self.op.addr@, self.op.name_len)),
    {
        let control = self.control;
        let control_len = self.control_len;
        let (buffer, addr) = self.op.take_buffer()?;
        Some(((buffer, control), addr, control_len))
    }
}

} // verus!
