use compio_driver::op::iocp::{
    overlapped_offset, slice_or_null, wsabuf_len, Accept, ConnectNamedPipe, DeviceIoControl,
    ACCEPT_ADDR_BUFFER_SIZE, ACCEPT_BUFFER_SIZE,
};
use compio_driver::sys_slice::SysSlice;

#[test]
fn overlapped_offset_splits_halves() {
    assert_eq!(overlapped_offset(0), (0, 0));
    assert_eq!(overlapped_offset(0x1234_5678), (0x1234_5678, 0));
    assert_eq!(overlapped_offset(0x0000_0001_0000_0000), (0, 1));
    assert_eq!(overlapped_offset(0xdead_beef_cafe_f00d), (0xcafe_f00d, 0xdead_beef));
    assert_eq!(overlapped_offset(u64::MAX), (u32::MAX, u32::MAX));
}

#[test]
fn overlapped_offset_recombines() {
    for offset in [7u64, 1 << 32, (1 << 40) + 5, u64::MAX - 1] {
        let (low, high) = overlapped_offset(offset);
        assert_eq!(((high as u64) << 32) | low as u64, offset);
    }
}

#[test]
fn wsabuf_len_saturates() {
    assert_eq!(wsabuf_len(0), 0);
    assert_eq!(wsabuf_len(4096), 4096);
    assert_eq!(wsabuf_len(u32::MAX as usize), u32::MAX);
    assert_eq!(wsabuf_len(u32::MAX as usize + 1), u32::MAX);
    assert_eq!(wsabuf_len(usize::MAX), u32::MAX);
}

#[test]
fn slice_or_null_picks_null_for_none() {
    let s = SysSlice::from_parts(0x1000, 16);
    assert_eq!(slice_or_null(Some(s)).into_inner(), (0x1000, 16));
    assert_eq!(slice_or_null(None).into_inner(), (0, 0));
}

#[test]
fn device_io_control_gives_buffers_back() {
    let op = DeviceIoControl::new(3usize, 0x0009_0028, Some(vec![1u8, 2]), None::<Vec<u8>>);
    assert_eq!(op.ioctl_code, 0x0009_0028);
    assert_eq!(op.fd, 3);
    let (input, output) = op.into_inner();
    assert_eq!(input, Some(vec![1, 2]));
    assert_eq!(output, None);
    let pipe = ConnectNamedPipe::new(9usize);
    assert_eq!(pipe.fd, 9);
}

#[test]
fn accept_buffer_holds_two_addresses() {
    let op = Accept::new(4usize, 5usize);
    assert_eq!(op.fd, 4);
    assert_eq!(op.accept_fd, 5);
    assert_eq!(op.buffer.len(), ACCEPT_BUFFER_SIZE);
    assert_eq!(ACCEPT_BUFFER_SIZE, 2 * ACCEPT_ADDR_BUFFER_SIZE);
    assert!(op.buffer.iter().all(|b| *b == 0));
}
