use vstd::prelude::*;
use crate::sys_slice::SysSlice;

verus! {

/// The length field of a `WSABUF`: a length beyond 32 bits is cut to the
/// largest one.
pub fn wsabuf_len(len: usize) -> (r: u32)
    ensures
        len <= u32::MAX ==> r == len as u32,
        len > u32::MAX ==> r == u32::MAX,
{
    if len <= 0xffff_ffffusize {
        len as u32
    } else {
        0xffff_ffffu32
    }
}

/// A file position as the two 32-bit halves an `OVERLAPPED` holds it in:
/// the low half, then the high half.
pub fn overlapped_offset(offset: u64) -> (r: (u32, u32))
    ensures
        r.0 as int + r.1 as int * 0x1_0000_0000 == offset as int,
        r.0 as int == offset as int % 0x1_0000_0000,
        r.1 as int == offset as int / 0x1_0000_0000,
{
    let low: u32 = (offset & 0xffff_ffffu64) as u32;
    let high: u32 = (offset >> 32u64) as u32;
    assert(low == offset % 0x1_0000_0000) by (bit_vector)
        requires
            low == (offset & 0xffff_ffffu64) as u32,
    ;
    assert(high == offset / 0x1_0000_0000) by (bit_vector)
        requires
            high == (offset >> 32u64) as u32,
    ;
    (low, high)
}

/// The slice of an optional buffer: the null slice when there is none.
pub fn slice_or_null(slice: Option<SysSlice>) -> (r: SysSlice)
    ensures
        slice is Some ==> r == slice.unwrap(),
        slice is None ==> r@ == (0usize, 0usize),
{
    match slice {
        Some(s) => s,
        None => SysSlice::null(),
    }
}

/// The room for one address that an accept writes: a `SOCKADDR_STORAGE`
/// and 16 bytes more.
pub const ACCEPT_ADDR_BUFFER_SIZE: usize = 144;

/// The buffer of an accept: room for the local address, then for the
/// remote one.
pub const ACCEPT_BUFFER_SIZE: usize = 288;

/// Accept a connection on Windows, into a socket made beforehand.
pub struct Accept<S, SA> {
    pub fd: S,
    pub accept_fd: SA,
    pub buffer: Vec<u8>,
}

impl<S, SA> Accept<S, SA> {
    /// Create [`Accept`]. `accept_fd` should not be bound.
    pub fn new(fd: S, accept_fd: SA) -> (r: Self)
        ensures
            r.fd == fd,
            r.accept_fd == accept_fd,
            r.buffer@.len() == ACCEPT_BUFFER_SIZE,
            forall|i: int| 0 <= i < ACCEPT_BUFFER_SIZE ==> #[trigger] r.buffer@[i] == 0u8,
            ACCEPT_BUFFER_SIZE == 2 * ACCEPT_ADDR_BUFFER_SIZE,
    {
        Accept { fd, accept_fd, buffer: vec![0u8; ACCEPT_BUFFER_SIZE] }
    }
}

/// Connect to a named pipe.
pub struct ConnectNamedPipe<S> {
    pub fd: S,
}

impl<S> ConnectNamedPipe<S> {
    /// Create [`ConnectNamedPipe`].
    pub fn new(fd: S) -> (r: Self)
        ensures
            r.fd == fd,
    {
        ConnectNamedPipe { fd }
    }
}

/// Send a control code to a device.
pub struct DeviceIoControl<S, I, O> {
    pub fd: S,
    pub ioctl_code: u32,
    pub input_buffer: Option<I>,
    pub output_buffer: Option<O>,
}

impl<S, I, O> DeviceIoControl<S, I, O> {
    /// Create [`DeviceIoControl`].
    pub fn new(fd: S, ioctl_code: u32, input_buffer: Option<I>, output_buffer: Option<O>) -> (r:
        Self)
        ensures
            r.fd == fd,
            r.ioctl_code == ioctl_code,
            r.input_buffer == input_buffer,
            r.output_buffer == output_buffer,
    {
        DeviceIoControl { fd, ioctl_code, input_buffer, output_buffer }
    }

    /// The buffers.
    pub fn into_inner(self) -> (r: (Option<I>, Option<O>))
        ensures
            r == (self.input_buffer, self.output_buffer),
    {
        (self.input_buffer, self.output_buffer)
    }
}

/// Control of a receive on Windows: the slice of the buffer.
pub struct RecvControl {
    pub slice: SysSlice,
}

impl Default for RecvControl {
    fn default() -> (r: Self)
        ensures
            r.slice@ == (0usize, 0usize),
    {
        RecvControl { slice: SysSlice::null() }
    }
}

/// Control of a send on Windows: the slice of the buffer.
pub struct SendControl {
    pub slice: SysSlice,
}

impl Default for SendControl {
    fn default() -> (r: Self)
        ensures
            r.slice@ == (0usize, 0usize),
    {
        SendControl { slice: SysSlice::null() }
    }
}

/// Control of a receive with address on Windows: the slice of the buffer.
pub struct RecvFromControl {
    pub slice: SysSlice,
}

impl Default for RecvFromControl {
    fn default() -> (r: Self)
        ensures
            r.slice@ == (0usize, 0usize),
    {
        RecvFromControl { slice: SysSlice::null() }
    }
}

/// Control of a vectored receive with address on Windows: the slices of the buffer.
pub struct RecvFromVectoredControl {
    pub slices: Vec<SysSlice>,
}

impl Default for RecvFromVectoredControl {
    fn default() -> (r: Self)
        ensures
            r.slices@.len() == 0,
    {
        RecvFromVectoredControl { slices: Vec::new() }
    }
}

/// Control of a send to an address on Windows: the slice of the buffer.
pub struct SendToControl {
    pub slice: SysSlice,
}

impl Default for SendToControl {
    fn default() -> (r: Self)
        ensures
            r.slice@ == (0usize, 0usize),
    {
        SendToControl { slice: SysSlice::null() }
    }
}

/// Control of a vectored send to an address on Windows: the slices of the buffer.
pub struct SendToVectoredControl {
    pub slices: Vec<SysSlice>,
}

impl Default for SendToVectoredControl {
    fn default() -> (r: Self)
        ensures
            r.slices@.len() == 0,
    {
        SendToVectoredControl { slices: Vec::new() }
    }
}

} // verus!
