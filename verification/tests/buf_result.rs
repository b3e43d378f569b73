use compio_driver::buf_result::{
    advance_vec_to, take_read_buffer, VecBufResultExt, BufResult, BufResultExt, Buffer, RecvResultExt, ResultTakeBuffer,
};
use compio_driver::io_result::IoError;

#[test]
fn buffer_advance_never_shrinks() {
    let mut b = Buffer::with_room(vec![0u8; 8]);
    assert_eq!(b.buf_len(), 0);
    assert_eq!(b.buf_capacity(), 8);
    b.advance_to(5);
    assert_eq!(b.buf_len(), 5);
    b.advance_to(3);
    assert_eq!(b.buf_len(), 5);
    b.advance_to(5);
    assert_eq!(b.buf_len(), 5);
    b.advance_to(8);
    assert_eq!(b.buf_len(), 8);
}

#[test]
fn buffer_views() {
    let b = Buffer::from_vec(vec![1, 2, 3]);
    assert_eq!(b.buf_len(), 3);
    assert_eq!(b.as_init(), &[1, 2, 3]);
    let mut c = Buffer::with_room(vec![9, 8, 7, 6]);
    c.advance_to(2);
    assert_eq!(c.as_init(), &[9, 8]);
    assert_eq!(c.into_inner(), vec![9, 8, 7, 6]);
}

#[test]
fn take_read_buffer_all_outcomes() {
    assert!(matches!(
        take_read_buffer(Err(IoError::Os(4)), Some(Buffer::with_room(vec![0; 4]))),
        Err(IoError::Os(4))
    ));
    assert!(matches!(take_read_buffer(Ok(0), Some(Buffer::with_room(vec![0; 4]))), Ok(None)));
    assert!(matches!(take_read_buffer(Ok(3), None), Err(IoError::UnexpectedEof(3))));
    match take_read_buffer(Ok(3), Some(Buffer::with_room(vec![5; 4]))) {
        Ok(Some(b)) => {
            assert_eq!(b.buf_len(), 3);
            assert_eq!(b.as_init(), &[5, 5, 5]);
        }
        _ => panic!("expected the buffer"),
    }
}

#[test]
fn result_take_buffer_marks_read_bytes() {
    let r = BufResult(Ok(2usize), Buffer::with_room(vec![1, 2, 3])).take_buffer();
    match r {
        Ok(Some(b)) => assert_eq!(b.as_init(), &[1, 2]),
        _ => panic!("expected the buffer"),
    }
    assert!(matches!(
        BufResult(Ok(0usize), Buffer::with_room(vec![1])).take_buffer(),
        Ok(None)
    ));
    assert!(matches!(
        BufResult(Err::<usize, _>(IoError::Other), Buffer::with_room(vec![1])).take_buffer(),
        Err(IoError::Other)
    ));
}

#[test]
fn map_advanced_only_on_success() {
    let BufResult(res, buf) = BufResult(Ok(4usize), Buffer::with_room(vec![0; 6])).map_advanced();
    assert_eq!(res, Ok(4));
    assert_eq!(buf.buf_len(), 4);
    let BufResult(res, buf) =
        BufResult(Err::<usize, _>(IoError::Other), Buffer::with_room(vec![0; 6])).map_advanced();
    assert_eq!(res, Err(IoError::Other));
    assert_eq!(buf.buf_len(), 0);
}

#[test]
fn map_addr_moves_address_to_result() {
    let addr = vec![2u8, 0, 0, 80];
    let r: BufResult<usize, (Vec<u8>, Option<Vec<u8>>)> =
        BufResult(Ok(10), (vec![7u8; 3], Some(addr.clone())));
    let BufResult(res, buf) = r.map_addr();
    assert_eq!(res, Ok((10, Some(addr))));
    assert_eq!(buf, vec![7u8; 3]);
    let e: BufResult<usize, (Vec<u8>, Option<Vec<u8>>)> =
        BufResult(Err(IoError::InvalidInput), (vec![], None));
    let BufResult(res, _) = e.map_addr();
    assert_eq!(res, Err(IoError::InvalidInput));
}

#[test]
fn advance_vec_fills_buffers_in_order() {
    let mut bufs = vec![
        Buffer::with_room(vec![0; 4]),
        Buffer::with_room(vec![0; 4]),
        Buffer::with_room(vec![0; 4]),
    ];
    advance_vec_to(&mut bufs, 6);
    assert_eq!(bufs.iter().map(|b| b.buf_len()).collect::<Vec<_>>(), vec![4, 2, 0]);
    advance_vec_to(&mut bufs, 6);
    assert_eq!(bufs.iter().map(|b| b.buf_len()).collect::<Vec<_>>(), vec![4, 2, 0]);
    advance_vec_to(&mut bufs, 3);
    assert_eq!(bufs.iter().map(|b| b.buf_len()).collect::<Vec<_>>(), vec![4, 2, 0]);
    advance_vec_to(&mut bufs, 12);
    assert_eq!(bufs.iter().map(|b| b.buf_len()).collect::<Vec<_>>(), vec![4, 4, 4]);
}

#[test]
fn map_vec_advanced_on_success_only() {
    let r = BufResult(Ok(5usize), vec![Buffer::with_room(vec![0; 2]), Buffer::with_room(vec![0; 8])]);
    let BufResult(res, bufs) = r.map_vec_advanced();
    assert_eq!(res, Ok(5));
    assert_eq!((bufs[0].buf_len(), bufs[1].buf_len()), (2, 3));
    let r = BufResult(Err::<usize, _>(IoError::Other), vec![Buffer::with_room(vec![0; 2])]);
    let BufResult(_, bufs) = r.map_vec_advanced();
    assert_eq!(bufs[0].buf_len(), 0);
    let r = BufResult(
        Ok((3usize, 2usize, "addr")),
        (vec![Buffer::with_room(vec![0; 2]), Buffer::with_room(vec![0; 2])], Buffer::with_room(vec![0; 4])),
    );
    let BufResult(res, (bufs, control)) = r.map_vec_advanced();
    assert_eq!(res, Ok((3, 2, "addr")));
    assert_eq!((bufs[0].buf_len(), bufs[1].buf_len(), control.buf_len()), (2, 1, 2));
}

#[test]
fn map_advanced_with_extra_values() {
    let r = BufResult(Ok((3usize, 'o')), Buffer::with_room(vec![0; 4]));
    let BufResult(res, b) = r.map_advanced();
    assert_eq!(res, Ok((3, 'o')));
    assert_eq!(b.buf_len(), 3);
    let r = BufResult(Ok((1usize, 2usize, ())), (Buffer::with_room(vec![0; 4]), Buffer::with_room(vec![0; 4])));
    let BufResult(_, (b, c)) = r.map_advanced();
    assert_eq!((b.buf_len(), c.buf_len()), (1, 2));
}

#[test]
fn map_addr_with_control_length() {
    let r: BufResult<usize, (Vec<u8>, Option<Vec<u8>>, usize)> =
        BufResult(Ok(4), (vec![1], Some(vec![9]), 7));
    let BufResult(res, buf) = r.map_addr();
    assert_eq!(res, Ok((4, 7, Some(vec![9]))));
    assert_eq!(buf, vec![1]);
}

#[test]
fn buffer_slices_cover_init_for_writes_and_room_for_reads() {
    let mut b = Buffer::with_room(vec![0u8; 16]);
    b.advance_to(5);
    assert_eq!(b.sys_slice(0x1000).into_inner(), (0x1000, 5));
    assert_eq!(b.sys_slice_mut(0x1000).into_inner(), (0x1000, 16));
}
