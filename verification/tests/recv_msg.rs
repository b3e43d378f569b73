use compio_driver::buf_result::Buffer;
use compio_driver::recv_msg::{parse_header, RecvMsgMultiResultImpl, HEADER_LEN, NAME_LEN};

fn layout(namelen: u32, controllen: u32, name: &[u8], control: &[u8], payload: &[u8]) -> Vec<u8> {
    let mut b = Vec::new();
    b.extend_from_slice(&namelen.to_le_bytes());
    b.extend_from_slice(&controllen.to_le_bytes());
    b.extend_from_slice(&(payload.len() as u32).to_le_bytes());
    b.extend_from_slice(&0u32.to_le_bytes());
    let mut n = name.to_vec();
    n.resize(NAME_LEN, 0);
    b.extend_from_slice(&n);
    b.extend_from_slice(control);
    b.extend_from_slice(payload);
    b
}

#[test]
fn layout_reads_back() {
    let b = layout(3, 2, &[9, 8, 7], &[1, 2, 3, 4], b"hello");
    let h = parse_header(&b);
    assert_eq!((h.namelen, h.controllen, h.payloadlen, h.flags), (3, 2, 5, 0));
    let r = RecvMsgMultiResultImpl::new(Buffer::from_vec(b), 4);
    assert_eq!(r.data(), b"hello");
    assert_eq!(r.ancillary(), &[1, 2]);
    assert_eq!(r.addr(), Some(vec![9, 8, 7]));
}

#[test]
fn no_address_reported() {
    let b = layout(0, 0, &[], &[], b"x");
    let r = RecvMsgMultiResultImpl::new(Buffer::from_vec(b), 0);
    assert_eq!(r.addr(), None);
    assert_eq!(r.data(), b"x");
    assert_eq!(r.ancillary(), &[] as &[u8]);
    assert_eq!(r.into_inner().buf_len(), HEADER_LEN + NAME_LEN + 1);
}

#[test]
fn header_matches_native_order() {
    let b = layout(1, 2, &[5], &[0, 0], &[]);
    let h = parse_header(&b);
    assert_eq!(h.namelen, u32::from_ne_bytes([b[0], b[1], b[2], b[3]]));
}

#[test]
fn name_room_is_a_sockaddr_storage() {
    assert_eq!(NAME_LEN, std::mem::size_of::<socket2::SockAddrStorage>());
}

#[test]
fn only_initialized_bytes_are_read() {
    let mut room = layout(0, 0, &[], &[], b"ab");
    let init = room.len();
    room.extend_from_slice(b"garbage");
    let mut buf = Buffer::with_room(room);
    buf.advance_to(init);
    let r = RecvMsgMultiResultImpl::new(buf, 0);
    assert_eq!(r.data(), b"ab");
}
