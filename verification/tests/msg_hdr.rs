use compio_driver::buf_result::Buffer;
use compio_driver::interest::Decision;
use compio_driver::msg_hdr::MsgHdr;
use compio_driver::op::fs::Sync;
use compio_driver::op::general::{ReadAt, WriteAt};
use compio_driver::op::managed::{RecvFromManaged, RecvMsgManaged};
use compio_driver::op::managed_multi::RecvMsgMulti;
use compio_driver::op::socket::{is_cmsg_aligned, Accept, RecvFrom, RecvFromHeader, RecvMsg, SendMsg, SendToHeader};
use compio_driver::op::unix::{
    ReadVectored, ReadVectoredAt, ReadVectoredControl, WriteVectored, WriteVectoredAt, WriteVectoredControl,
};
use compio_driver::recv_msg::NAME_LEN;
use compio_driver::sys_slice::SysSlice;

fn hdr(name: usize, namelen: u32, iov: usize, iovlen: usize, control: usize, controllen: usize) -> MsgHdr {
    MsgHdr { name, namelen, iov, iovlen, control, controllen }
}

#[test]
fn headers_of_sends() {
    let h = SendToHeader::new(3, vec![2, 0, 0, 80, 127, 0, 0, 1], 0);
    assert_eq!(h.create_control(0x10, 0x20, 2), hdr(0x10, 8, 0x20, 2, 0, 0));
    let m = SendMsg::new(3, (), (), SysSlice::from_parts(0x30, 24), Some(vec![1, 2, 3]), 0);
    assert_eq!(m.init_control(0x10, 0x20, 1, SysSlice::from_parts(0x30, 24)), hdr(0x10, 3, 0x20, 1, 0x30, 24));
    let m = SendMsg::new(3, (), (), SysSlice::null(), None, 0);
    assert_eq!(m.init_control(0x10, 0x20, 1, SysSlice::null()), hdr(0, 0, 0x20, 1, 0, 0));
}

#[test]
fn headers_of_receives() {
    let h = RecvFromHeader::new(3, 0);
    assert_eq!(h.create_control(0x10, 0x20, 1), hdr(0x10, NAME_LEN as u32, 0x20, 1, 0, 0));
    let m = RecvMsg::new(3, (), (), SysSlice::from_parts(0x30, 64), 0);
    assert_eq!(
        m.init_control(0x10, 0x20, 2, SysSlice::from_parts(0x30, 64)),
        hdr(0x10, NAME_LEN as u32, 0x20, 2, 0x30, 64)
    );
    let r = RecvFromManaged::new(3, 1, 512, 0);
    let (h, iovec) = r.init(0x10, 0x20);
    assert_eq!(h, hdr(0x10, NAME_LEN as u32, 0x20, 1, 0, 0));
    assert_eq!(iovec.into_inner(), (0, 512));
    let r = RecvMsgManaged::new(3, 1, 512, (), 0);
    let (h, _) = r.init(0x10, 0x20, SysSlice::from_parts(0x40, 32));
    assert_eq!(h, hdr(0x10, NAME_LEN as u32, 0x20, 1, 0x40, 32));
    let m: RecvMsgMulti<i32, ()> = RecvMsgMulti::new(3, 1, 48, 0, true, None);
    assert_eq!(m.init(0x10, 0x20, SysSlice::null()).0, hdr(0, NAME_LEN as u32, 0, 0, 0, 48));
    let f: RecvMsgMulti<i32, ()> = RecvMsgMulti::new(3, 1, 48, 0, false, Some(Buffer::with_room(vec![0; 48])));
    assert_eq!(
        f.init(0x10, 0x20, SysSlice::from_parts(0x50, 48)).0,
        hdr(0x10, NAME_LEN as u32, 0x20, 1, 0x50, 48)
    );
    assert_eq!(MsgHdr::default(), MsgHdr::zeroed());
}

#[test]
fn positioned_io_runs_on_a_thread() {
    assert!(matches!(ReadAt::new(3, 0, ()).pre_submit(), Decision::Blocking));
    assert!(matches!(WriteAt::new(3, 0, ()).pre_submit(), Decision::Blocking));
    assert!(matches!(ReadVectoredAt::new(3, 0, ()).pre_submit(), Decision::Blocking));
    assert!(matches!(WriteVectoredAt::new(3, 0, ()).pre_submit(), Decision::Blocking));
    assert!(matches!(Sync::new(3, false).pre_submit(), Decision::Blocking));
}

#[test]
fn control_alignment_matches_cmsghdr() {
    let align = std::mem::align_of::<libc::cmsghdr>();
    assert!(is_cmsg_aligned(0));
    assert!(is_cmsg_aligned(align * 5));
    assert!(!is_cmsg_aligned(align * 5 + 1));
    let buf = vec![0u64; 4];
    assert!(is_cmsg_aligned(buf.as_ptr() as usize));
}

#[test]
fn receive_storages_start_zeroed() {
    let h = RecvFromHeader::new(3, 0);
    assert!(h.addr.len() == NAME_LEN && h.addr.iter().all(|b| *b == 0));
    let r = RecvFrom::new(3, (), 0);
    assert!(r.header.addr.iter().all(|b| *b == 0));
    let m = RecvMsg::new(3, (), (), SysSlice::null(), 0);
    assert!(m.addr.len() == NAME_LEN && m.addr.iter().all(|b| *b == 0));
    let a = Accept::new(3);
    assert!(a.buffer.len() == NAME_LEN && a.buffer.iter().all(|b| *b == 0));
    assert_eq!(a.addr_len as usize, NAME_LEN);
    let r = RecvFromManaged::new(3, 1, 512, 0);
    assert!(r.addr.iter().all(|b| *b == 0));
}

#[test]
fn vectored_controls_keep_slices_of_whole_buffers() {
    let r = ReadVectored::new(3, vec![Buffer::with_room(vec![0u8; 8]), Buffer::with_room(vec![0u8; 4])]);
    let mut ctrl = ReadVectoredControl::default();
    r.create_control(&mut ctrl, vec![SysSlice::from_parts(0x100, 8), SysSlice::from_parts(0x200, 4)]);
    assert_eq!(ctrl.slices.len(), 2);
    assert_eq!(ctrl.slices[0].into_inner(), (0x100, 8));
    assert_eq!(ctrl.slices[1].into_inner(), (0x200, 4));
    let w = WriteVectored::new(3, vec![Buffer::from_vec(vec![1, 2, 3])]);
    let mut ctrl = WriteVectoredControl::default();
    w.create_control(&mut ctrl, vec![SysSlice::from_parts(0x300, 3)]);
    assert_eq!(ctrl.slices[0].into_inner(), (0x300, 3));
}
