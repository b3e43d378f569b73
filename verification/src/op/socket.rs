use vstd::prelude::*;
use crate::interest::RawFd;
use crate::recv_msg::NAME_LEN;
use crate::sys_slice::SysSlice;

verus! {

/// The header of a control message, `cmsghdr`, as libc lays it out.
#[verifier::external_type_specification]
#[verifier::external_body]
pub struct ExCmsgHeader(libc::cmsghdr);

/// Whether an address is aligned for a control message header.
pub open spec fn cmsg_aligned(ptr: usize) -> bool {
    ptr as nat % vstd::layout::align_of::<libc::cmsghdr>() == 0
}

/// Whether an address is aligned for a control message header; the check
/// made before a control buffer is handed to a message operation.
pub fn is_cmsg_aligned(ptr: usize) -> (r: bool)
    ensures
        r == cmsg_aligned(ptr),
{
    vstd::layout::layout_for_type_is_valid::<libc::cmsghdr>();
    let align = core::mem::align_of::<libc::cmsghdr>();
    ptr % align == 0
}

/// A storage holds no address yet: `NAME_LEN` zero bytes.
pub open spec fn is_zeroed_storage(s: Seq<u8>) -> bool {
    s.len() == NAME_LEN && forall|i: int| 0 <= i < NAME_LEN ==> #[trigger] s[i] == 0
}

/// `SOCK_NONBLOCK`.
pub const SOCK_NONBLOCK: i32 = 0x800;
/// `SOCK_CLOEXEC`.
pub const SOCK_CLOEXEC: i32 = 0x80000;
/// `SHUT_RD`.
pub const SHUT_RD: i32 = 0;
/// `SHUT_WR`.
pub const SHUT_WR: i32 = 1;
/// `SHUT_RDWR`.
pub const SHUT_RDWR: i32 = 2;

/// A zeroed socket address storage.
pub fn zeroed_storage() -> (r: Vec<u8>)
    ensures
        is_zeroed_storage(r@),
{
    let mut v: Vec<u8> = Vec::new();
    let mut i: usize = 0;
    while i < NAME_LEN
        invariant
            i <= NAME_LEN,
            v@.len() == i,
            forall|j: int| 0 <= j < i ==> v@[j] == 0,
        decreases NAME_LEN - i,
    {
        v.push(0);
        i = i + 1;
    }
    v
}

/// The storage with `addr` copied to its start.
pub open spec fn copied_into(storage: Seq<u8>, addr: Seq<u8>) -> Seq<u8> {
    addr + storage.subrange(addr.len() as int, storage.len() as int)
}

/// Copy a received address into the storage and record its length; no
/// address leaves both as they are.
pub fn copy_addr_from(storage: &mut Vec<u8>, addr_len: &mut u32, addr: Option<Vec<u8>>)
    requires
        addr is Some ==> addr.unwrap()@.len() <= old(storage)@.len(),
        addr is Some ==> addr.unwrap()@.len() <= u32::MAX,
    ensures
        addr is None ==> final(storage)@ == old(storage)@ && *final(addr_len) == *old(addr_len),
        addr is Some ==> final(storage)@ == copied_into(old(storage)@, addr.unwrap()@)
            && *final(addr_len) == addr.unwrap()@.len(),
{
    match addr {
        None => {},
        Some(a) => {
            *addr_len = a.len() as u32;
            let mut i: usize = 0;
            let ghost before = storage@;
            while i < a.len()
                invariant
                    i <= a@.len(),
                    a@.len() <= before.len(),
                    storage@.len() == before.len(),
                    forall|j: int| 0 <= j < i ==> storage@[j] == a@[j],
                    forall|j: int| i <= j < before.len() ==> storage@[j] == before[j],
                decreases a@.len() - i,
            {
                storage.set(i, a[i]);
                i = i + 1;
            }
            assert(storage@ =~= copied_into(before, a@));
        },
    }
}

/// The address that a storage holds when its first `len` bytes are set:
/// none for a length of 0.
pub open spec fn stored_addr(storage: Seq<u8>, len: u32) -> Option<Seq<u8>> {
    if len == 0 {
        None
    } else {
        Some(storage.subrange(0, len as int))
    }
}

/// The bytes of an address, if there is one.
pub open spec fn addr_view(a: Option<Vec<u8>>) -> Option<Seq<u8>> {
    match a {
        Some(v) => Some(v@),
        None => None,
    }
}

/// The address held in a storage of which the first `len` bytes are set,
/// when there is one.
pub fn storage_addr(storage: &Vec<u8>, len: u32) -> (r: Option<Vec<u8>>)
    requires
        len <= storage@.len(),
    ensures
        len == 0 ==> r is None,
        len > 0 ==> (r matches Some(a) && a@ == storage@.subrange(0, len as int)),
{
    if len > 0 {
        let s = vstd::slice::slice_subrange(storage.as_slice(), 0, len as usize);
        Some(vstd::slice::slice_to_vec(s))
    } else {
        None
    }
}

/// Connect to a remote address.
pub struct Connect<S> {
    pub fd: S,
    pub addr: Vec<u8>,
}

impl<S> Connect<S> {
    /// Create [`Connect`]. `fd` should be bound.
    pub fn new(fd: S, addr: Vec<u8>) -> (r: Self)
        ensures
            r.fd == fd,
            r.addr@ == addr@,
    {
        Connect { fd, addr }
    }
}

/// Close socket fd.
pub struct CloseSocket {
    pub fd: RawFd,
}

impl CloseSocket {
    /// Create [`CloseSocket`].
    pub fn new(fd: RawFd) -> (r: Self)
        ensures
            r.fd == fd,
    {
        CloseSocket { fd }
    }
}

/// Send data to remote.
pub struct Send<T, S> {
    pub fd: S,
    pub buffer: T,
    pub flags: i32,
}

impl<T, S> Send<T, S> {
    /// Create [`Send`].
    pub fn new(fd: S, buffer: T, flags: i32) -> (r: Self)
        ensures
            r.fd == fd,
            r.buffer == buffer,
            r.flags == flags,
    {
        Send { fd, buffer, flags }
    }

    /// The buffer.
    pub fn into_inner(self) -> (r: T)
        ensures
            r == self.buffer,
    {
        self.buffer
    }
}

/// Send data to remote from vectored buffer.
pub struct SendVectored<T, S> {
    pub fd: S,
    pub buffer: T,
    pub flags: i32,
}

impl<T, S> SendVectored<T, S> {
    /// Create [`SendVectored`].
    pub fn new(fd: S, buffer: T, flags: i32) -> (r: Self)
        ensures
            r.fd == fd,
            r.buffer == buffer,
            r.flags == flags,
    {
        SendVectored { fd, buffer, flags }
    }

    /// The buffer.
    pub fn into_inner(self) -> (r: T)
        ensures
            r == self.buffer,
    {
        self.buffer
    }
}

/// Where and how data is sent.
pub struct SendToHeader<S> {
    pub fd: S,
    pub addr: Vec<u8>,
    pub flags: i32,
}

impl<S> SendToHeader<S> {
    /// Create a header.
    pub fn new(fd: S, addr: Vec<u8>, flags: i32) -> (r: Self)
        ensures
            r.fd == fd,
            r.addr@ == addr@,
            r.flags == flags,
    {
        SendToHeader { fd, addr, flags }
    }
}

/// Send data to specified address.
pub struct SendTo<T, S> {
    pub header: SendToHeader<S>,
    pub buffer: T,
}

impl<T, S> SendTo<T, S> {
    /// Create [`SendTo`].
    pub fn new(fd: S, buffer: T, addr: Vec<u8>, flags: i32) -> (r: Self)
        ensures
            r.header.fd == fd,
            r.header.addr@ == addr@,
            r.header.flags == flags,
            r.buffer == buffer,
    {
        SendTo { header: SendToHeader::new(fd, addr, flags), buffer }
    }

    /// The buffer.
    pub fn into_inner(self) -> (r: T)
        ensures
            r == self.buffer,
    {
        self.buffer
    }
}

/// Send data to specified address from vectored buffer.
pub struct SendToVectored<T, S> {
    pub header: SendToHeader<S>,
    pub buffer: T,
}

impl<T, S> SendToVectored<T, S> {
    /// Create [`SendToVectored`].
    pub fn new(fd: S, buffer: T, addr: Vec<u8>, flags: i32) -> (r: Self)
        ensures
            r.header.fd == fd,
            r.header.addr@ == addr@,
            r.header.flags == flags,
            r.buffer == buffer,
    {
        SendToVectored { header: SendToHeader::new(fd, addr, flags), buffer }
    }

    /// The buffer.
    pub fn into_inner(self) -> (r: T)
        ensures
            r == self.buffer,
    {
        self.buffer
    }
}

/// Send data to specified address accompanied by ancillary data from
/// vectored buffer.
pub struct SendMsg<T, C, S> {
    pub fd: S,
    pub buffer: T,
    pub control: C,
    pub addr: Option<Vec<u8>>,
    pub flags: i32,
}

impl<T, C, S> SendMsg<T, C, S> {
    /// Create [`SendMsg`]. `control_at` says where the control message
    /// buffer lies; unless it is empty, it must be aligned for a control
    /// message header.
    pub fn new(
        fd: S,
        buffer: T,
        control: C,
        control_at: SysSlice,
        addr: Option<Vec<u8>>,
        flags: i32,
    ) -> (r: Self)
        requires
            control_at@.1 == 0 || cmsg_aligned(control_at@.0),
        ensures
            r.fd == fd,
            r.buffer == buffer,
            r.control == control,
            r.addr == addr,
            r.flags == flags,
    {
        SendMsg { fd, buffer, control, addr, flags }
    }

    /// The buffer and the control buffer.
    pub fn into_inner(self) -> (r: (T, C))
        ensures
            r == (self.buffer, self.control),
    {
        (self.buffer, self.control)
    }
}

/// Receive data from remote.
pub struct Recv<T, S> {
    pub fd: S,
    pub buffer: T,
    pub flags: i32,
}

impl<T, S> Recv<T, S> {
    /// Create [`Recv`].
    pub fn new(fd: S, buffer: T, flags: i32) -> (r: Self)
        ensures
            r.fd == fd,
            r.buffer == buffer,
            r.flags == flags,
    {
        Recv { fd, buffer, flags }
    }

    /// The buffer.
    pub fn into_inner(self) -> (r: T)
        ensures
            r == self.buffer,
    {
        self.buffer
    }
}

/// Receive data from remote into vectored buffer.
pub struct RecvVectored<T, S> {
    pub fd: S,
    pub buffer: T,
    pub flags: i32,
}

impl<T, S> RecvVectored<T, S> {
    /// Create [`RecvVectored`].
    pub fn new(fd: S, buffer: T, flags: i32) -> (r: Self)
        ensures
            r.fd == fd,
            r.buffer == buffer,
            r.flags == flags,
    {
        RecvVectored { fd, buffer, flags }
    }

    /// The buffer.
    pub fn into_inner(self) -> (r: T)
        ensures
            r == self.buffer,
    {
        self.buffer
    }
}

/// The length a receive reports: the kernel may report the size of a
/// truncated datagram, larger than the buffer; at most the buffer counts.
pub fn received_len(bytes: usize, capacity: usize) -> (r: usize)
    ensures
        r == if bytes < capacity {
            bytes
        } else {
            capacity
        },
{
    if bytes < capacity {
        bytes
    } else {
        capacity
    }
}

/// Where data is received from, and how.
pub struct RecvFromHeader<S> {
    pub fd: S,
    pub addr: Vec<u8>,
    pub flags: i32,
    pub name_len: u32,
}

impl<S> RecvFromHeader<S> {
    /// Create a header with room for any address.
    pub fn new(fd: S, flags: i32) -> (r: Self)
        ensures
            r.fd == fd,
            r.flags == flags,
            is_zeroed_storage(r.addr@),
            r.name_len == NAME_LEN,
    {
        RecvFromHeader { fd, addr: zeroed_storage(), flags, name_len: NAME_LEN as u32 }
    }

    /// Record the address a receive reported.
    pub fn set_addr(&mut self, addr: Option<Vec<u8>>)
        requires
            addr is Some ==> addr.unwrap()@.len() <= old(self).addr@.len(),
            addr is Some ==> addr.unwrap()@.len() <= u32::MAX,
        ensures
            addr is None ==> final(self).addr@ == old(self).addr@ && final(self).name_len == old(self).name_len,
            addr is Some ==> final(self).addr@ == copied_into(old(self).addr@, addr.unwrap()@)
                && final(self).name_len == addr.unwrap()@.len(),
            final(self).flags == old(self).flags,
    {
        copy_addr_from(&mut self.addr, &mut self.name_len, addr);
    }

    /// The source address, when one was received.
    pub fn into_addr(self) -> (r: Option<Vec<u8>>)
        requires
            self.name_len <= self.addr@.len(),
        ensures
            self.name_len == 0 ==> r is None,
            self.name_len > 0 ==> (r matches Some(a) && a@ == self.addr@.subrange(
                0,
                self.name_len as int,
            )),
    {
        storage_addr(&self.addr, self.name_len)
    }
}

/// Receive data and source address.
pub struct RecvFrom<T, S> {
    pub header: RecvFromHeader<S>,
    pub buffer: T,
}

impl<T, S> RecvFrom<T, S> {
    /// Create [`RecvFrom`].
    pub fn new(fd: S, buffer: T, flags: i32) -> (r: Self)
        ensures
            r.header.fd == fd,
            r.header.flags == flags,
            is_zeroed_storage(r.header.addr@),
            r.header.name_len == NAME_LEN,
            r.buffer == buffer,
    {
        RecvFrom { header: RecvFromHeader::new(fd, flags), buffer }
    }

    /// The buffer and the source address.
    pub fn into_inner(self) -> (r: (T, Option<Vec<u8>>))
        requires
            self.header.name_len <= self.header.addr@.len(),
        ensures
            r.0 == self.buffer,
            self.header.name_len == 0 ==> r.1 is None,
            self.header.name_len > 0 ==> (r.1 matches Some(a) && a@ == self.header.addr@.subrange(
                0,
                self.header.name_len as int,
            )),
    {
        let addr = self.header.into_addr();
        (self.buffer, addr)
    }
}

/// Receive data and source address into vectored buffer.
pub struct RecvFromVectored<T, S> {
    pub header: RecvFromHeader<S>,
    pub buffer: T,
}

impl<T, S> RecvFromVectored<T, S> {
    /// Create [`RecvFromVectored`].
    pub fn new(fd: S, buffer: T, flags: i32) -> (r: Self)
        ensures
            r.header.fd == fd,
            r.header.flags == flags,
            is_zeroed_storage(r.header.addr@),
            r.header.name_len == NAME_LEN,
            r.buffer == buffer,
    {
        RecvFromVectored { header: RecvFromHeader::new(fd, flags), buffer }
    }

    /// The buffer and the source address.
    pub fn into_inner(self) -> (r: (T, Option<Vec<u8>>))
        requires
            self.header.name_len <= self.header.addr@.len(),
        ensures
            r.0 == self.buffer,
            self.header.name_len == 0 ==> r.1 is None,
            self.header.name_len > 0 ==> (r.1 matches Some(a) && a@ == self.header.addr@.subrange(
                0,
                self.header.name_len as int,
            )),
    {
        let addr = self.header.into_addr();
        (self.buffer, addr)
    }
}

/// Receive data and source address with ancillary data into vectored
/// buffer.
pub struct RecvMsg<T, C, S> {
    pub addr: Vec<u8>,
    pub fd: S,
    pub buffer: T,
    pub control: C,
    pub flags: i32,
    pub name_len: u32,
    pub control_len: usize,
}

impl<T, C, S> RecvMsg<T, C, S> {
    /// Create [`RecvMsg`]. `control_at` says where the control message
    /// buffer lies; it must be aligned for a control message header, even
    /// when empty.
    pub fn new(fd: S, buffer: T, control: C, control_at: SysSlice, flags: i32) -> (r: Self)
        requires
            cmsg_aligned(control_at@.0),
        ensures
            r.fd == fd,
            r.buffer == buffer,
            r.control == control,
            r.flags == flags,
            is_zeroed_storage(r.addr@),
            r.name_len == 0,
            r.control_len == 0,
    {
        RecvMsg {
            addr: zeroed_storage(),
            fd,
            buffer,
            control,
            flags,
            name_len: 0,
            control_len: 0,
        }
    }

    /// Record the address and ancillary lengths the kernel reported.
    pub fn update_control(&mut self, msg_namelen: u32, msg_controllen: usize)
        ensures
            final(self).name_len == msg_namelen,
            final(self).control_len == msg_controllen,
            final(self).addr@ == old(self).addr@,
    {
        self.name_len = msg_namelen;
        self.control_len = msg_controllen;
    }

    /// The buffers, the source address and the length of the ancillary
    /// data.
    pub fn into_inner(self) -> (r: ((T, C), Option<Vec<u8>>, usize))
        requires
            self.name_len <= self.addr@.len(),
        ensures
            r.0 == (self.buffer, self.control),
            r.2 == self.control_len,
            self.name_len == 0 ==> r.1 is None,
            self.name_len > 0 ==> (r.1 matches Some(a) && a@ == self.addr@.subrange(
                0,
                self.name_len as int,
            )),
    {
        let addr = storage_addr(&self.addr, self.name_len);
        ((self.buffer, self.control), addr, self.control_len)
    }
}

/// Bind a socket to an address.
pub struct Bind<S> {
    pub fd: S,
    pub addr: Vec<u8>,
}

impl<S> Bind<S> {
    /// Create [`Bind`].
    pub fn new(fd: S, addr: Vec<u8>) -> (r: Self)
        ensures
            r.fd == fd,
            r.addr@ == addr@,
    {
        Bind { fd, addr }
    }
}

/// Listen for connections on a socket.
pub struct Listen<S> {
    pub fd: S,
    pub backlog: i32,
}

impl<S> Listen<S> {
    /// Create [`Listen`].
    pub fn new(fd: S, backlog: i32) -> (r: Self)
        ensures
            r.fd == fd,
            r.backlog == backlog,
    {
        Listen { fd, backlog }
    }
}

/// Which directions of a socket to shut down.
#[derive(Debug, Clone, Copy, PartialEq, Eq, Structural)]
pub enum Shutdown {
    Read,
    Write,
    Both,
}

/// Shutdown a socket.
pub struct ShutdownSocket<S> {
    pub fd: S,
    pub how: Shutdown,
}

impl<S> ShutdownSocket<S> {
    /// Create [`ShutdownSocket`].
    pub fn new(fd: S, how: Shutdown) -> (r: Self)
        ensures
            r.fd == fd,
            r.how == how,
    {
        ShutdownSocket { fd, how }
    }

    /// The `how` argument of `shutdown`.
    pub fn how(&self) -> (r: i32)
        ensures
            self.how == Shutdown::Write ==> r == SHUT_WR,
            self.how == Shutdown::Read ==> r == SHUT_RD,
            self.how == Shutdown::Both ==> r == SHUT_RDWR,
    {
        match self.how {
            Shutdown::Write => SHUT_WR,
            Shutdown::Read => SHUT_RD,
            Shutdown::Both => SHUT_RDWR,
        }
    }
}

/// Accept a connection.
pub struct Accept<S> {
    pub fd: S,
    pub buffer: Vec<u8>,
    pub addr_len: u32,
    pub accepted_fd: Option<RawFd>,
}

impl<S> Accept<S> {
    /// Create [`Accept`].
    pub fn new(fd: S) -> (r: Self)
        ensures
            r.fd == fd,
            is_zeroed_storage(r.buffer@),
            r.addr_len == NAME_LEN,
            r.accepted_fd is None,
    {
        Accept { fd, buffer: zeroed_storage(), addr_len: NAME_LEN as u32, accepted_fd: None }
    }

    /// Keep the socket that a successful accept returned.
    pub fn set_result(&mut self, res: &Result<usize, crate::io_result::IoError>)
        requires
            res is Ok ==> res.unwrap() <= i32::MAX,
        ensures
            res is Ok ==> final(self).accepted_fd == Some(res.unwrap() as RawFd),
            res is Err ==> final(self).accepted_fd == old(self).accepted_fd,
            final(self).buffer@ == old(self).buffer@,
            final(self).addr_len == old(self).addr_len,
    {
        if let Ok(fd) = res {
            self.accepted_fd = Some(*fd as RawFd);
        }
    }

    /// The accepted socket and the address of the peer.
    pub fn into_inner(self) -> (r: (RawFd, Vec<u8>))
        requires
            self.accepted_fd is Some,
            self.addr_len <= self.buffer@.len(),
        ensures
            r.0 == self.accepted_fd.unwrap(),
            r.1@ == self.buffer@.subrange(0, self.addr_len as int),
    {
        let s = vstd::slice::slice_subrange(self.buffer.as_slice(), 0, self.addr_len as usize);
        (self.accepted_fd.unwrap(), vstd::slice::slice_to_vec(s))
    }
}

/// Create a socket.
pub struct CreateSocket {
    pub domain: i32,
    pub socket_type: i32,
    pub protocol: Option<u32>,
    pub opened_fd: Option<RawFd>,
}

impl CreateSocket {
    /// Create [`CreateSocket`]; protocol 0 stands for the default one.
    pub fn new(domain: i32, socket_type: i32, protocol: i32) -> (r: Self)
        ensures
            r.domain == domain,
            r.socket_type == socket_type,
            protocol == 0 ==> r.protocol is None,
            protocol != 0 ==> r.protocol == Some(protocol as u32),
            r.opened_fd is None,
    {
        let p = if protocol != 0 {
            Some(protocol as u32)
        } else {
            None
        };
        CreateSocket { domain, socket_type, protocol: p, opened_fd: None }
    }

    /// The type passed to `socket`: the requested one, close-on-exec and
    /// non-blocking.
    pub fn socket_flags(&self) -> (r: i32)
        ensures
            r == self.socket_type | SOCK_CLOEXEC | SOCK_NONBLOCK,
    {
        self.socket_type | SOCK_CLOEXEC | SOCK_NONBLOCK
    }

    /// Keep the created socket.
    pub fn set_opened(&mut self, fd: RawFd)
        ensures
            final(self).opened_fd == Some(fd),
            final(self).domain == old(self).domain,
            final(self).socket_type == old(self).socket_type,
            final(self).protocol == old(self).protocol,
    {
        self.opened_fd = Some(fd);
    }

    /// The created socket.
    pub fn into_inner(self) -> (r: RawFd)
        requires
            self.opened_fd is Some,
        ensures
            r == self.opened_fd.unwrap(),
    {
        self.opened_fd.unwrap()
    }
}

} // verus!
