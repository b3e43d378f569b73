use compio_driver::buf_result::{BufResult, Buffer, TakeBuffer};
use compio_driver::io_result::IoError;
use compio_driver::op::managed::RecvMsgManaged;
use compio_driver::op::managed_multi::{
    MultishotResult, ReadMulti, ReadMultiAt, RecvFromMulti, RecvFromMultiResult, RecvMsgMulti,
    RecvMsgMultiResult, RecvMulti,
};
use compio_driver::recv_msg::NAME_LEN;

fn message(namelen: u32, controllen: u32, name: &[u8], control: &[u8], payload: &[u8]) -> Vec<u8> {
    let mut b = Vec::new();
    b.extend_from_slice(&namelen.to_le_bytes());
    b.extend_from_slice(&controllen.to_le_bytes());
    b.extend_from_slice(&(payload.len() as u32).to_le_bytes());
    b.extend_from_slice(&0u32.to_le_bytes());
    let mut n = name.to_vec();
    n.resize(NAME_LEN, 0);
    b.extend_from_slice(&n);
    b.extend_from_slice(control);
    b.extend_from_slice(payload);
    b
}

#[test]
fn multishot_result_taken_or_given_back() {
    let BufResult(r, e) = MultishotResult::new(Ok(5), 'x', Some(3)).into_result();
    assert_eq!((r, e), (Ok(5), 'x'));
    assert_eq!(MultishotResult::new(Err(IoError::Other), 'y', Some(4)).discard(), Some(4));
    assert_eq!(MultishotResult::new(Ok(1), 'z', None).discard(), None);
}

#[test]
fn read_multi_queues_in_order() {
    let mut op: ReadMulti<i32, u8> = ReadMulti::new(3, 1, 64).ok().unwrap();
    assert!(op.pop_multishot().is_none());
    op.push_multishot(Ok(10), 1, Some(0));
    op.push_multishot(Ok(20), 2, Some(1));
    let BufResult(r, e) = op.pop_multishot().unwrap();
    assert_eq!((r, e), (Ok(10), 1));
    let BufResult(r, e) = op.pop_multishot().unwrap();
    assert_eq!((r, e), (Ok(20), 2));
    assert!(op.pop_multishot().is_none());
    op.set_result(Some(Buffer::from_vec(vec![1, 2, 3])));
    assert_eq!(op.take_buffer().unwrap().as_init(), &[1, 2, 3]);
}

#[test]
fn read_multi_at_and_recv_multi_refuse_long_lengths() {
    if usize::BITS > 32 {
        let too_long = u32::MAX as usize + 1;
        assert!(matches!(ReadMultiAt::<i32, u8>::new(3, 0, 1, too_long), Err(IoError::InvalidInput)));
        assert!(matches!(RecvMulti::<i32, u8>::new(3, 1, too_long, 0), Err(IoError::InvalidInput)));
    }
    let mut op: RecvMulti<i32, u8> = RecvMulti::new(3, 1, 16, 0).ok().unwrap();
    op.set_result(None);
    assert!(op.take_buffer().is_none());
}

#[test]
fn recv_msg_managed_gives_control_and_address() {
    let mut op = RecvMsgManaged::new(3, 1, 16, vec![0u8; 8], 0);
    op.op.addr[0] = 10;
    op.op.addr[1] = 11;
    op.set_result(2, 5, Some(Buffer::from_vec(vec![42])));
    let ((buf, control), addr, control_len) = op.take_buffer().unwrap();
    assert_eq!(buf.as_init(), &[42]);
    assert_eq!(control, vec![0u8; 8]);
    assert_eq!(addr, Some(vec![10, 11]));
    assert_eq!(control_len, 5);
}

#[test]
fn recv_msg_multi_parses_kernel_layout() {
    let mut op: RecvMsgMulti<i32, u8> = RecvMsgMulti::new(3, 1, 4, 0, true, None);
    let room = message(3, 2, &[7, 8, 9], &[1, 2, 3, 4], b"hey");
    let len = room.len();
    op.set_result(&Ok(len), 0, 0, Some(Buffer::with_room(room)));
    op.push_multishot(Ok(len), 9, Some(2));
    let BufResult(r, e) = op.pop_multishot().unwrap();
    assert_eq!((r, e), (Ok(len), 9));
    let m = op.take_buffer().unwrap();
    assert_eq!(m.data(), b"hey");
    assert_eq!(m.ancillary(), &[1, 2]);
    assert_eq!(m.addr(), Some(vec![7, 8, 9]));
    assert_eq!(m.into_inner().buf_len(), len);
}

#[test]
fn recv_msg_multi_fallback_one_message() {
    let mut control = Buffer::with_room(vec![5, 6, 7, 8]);
    control.advance_to(0);
    let mut op: RecvMsgMulti<i32, u8> = RecvMsgMulti::new(3, 1, 4, 0, false, Some(control));
    op.push_multishot(Ok(1), 1, None);
    assert!(op.pop_multishot().is_none());
    op.set_result(&Ok(2), 0, 3, Some(Buffer::with_room(vec![b'o', b'k', b'!'])));
    let m = op.take_buffer().unwrap();
    assert_eq!(m.data(), b"ok");
    assert_eq!(m.ancillary(), &[5, 6, 7]);
    assert_eq!(m.addr(), None);
}

#[test]
fn recv_from_multi_result_reads_address_and_data() {
    let b = message(2, 0, &[1, 2], &[], b"data");
    let r = RecvFromMultiResult::new(Buffer::from_vec(b));
    assert_eq!(r.data(), b"data");
    assert_eq!(r.addr(), Some(vec![1, 2]));
    let m = RecvMsgMultiResult::new(Buffer::from_vec(message(0, 0, &[], &[], b"")), 0);
    assert_eq!(m.data(), b"");
    assert_eq!(m.addr(), None);
}

#[test]
fn recv_from_multi_without_selected_buffer() {
    let mut op: RecvFromMulti<i32, u8> = RecvFromMulti::new(3, 1, 0, true, None);
    op.set_result(&Ok(4), 0, 0, None);
    assert!(op.take_buffer().is_none());
}
