use io_uring::opcode;
use compio_driver::op_flag::{self, OpCodeFlag};

#[test]
fn basic_codes_in_declaration_order() {
    let f = OpCodeFlag::basic();
    assert_eq!(f.bits(), 0x107ff);
    assert_eq!(f.get_codes(), vec![22, 1, 23, 2, 3, 13, 16, 27, 26, 10, 9, 6]);
}

#[test]
fn codes_match_io_uring() {
    assert_eq!(OpCodeFlag::from_bits_retain(op_flag::READ).get_codes(), vec![opcode::Read::CODE]);
    assert_eq!(OpCodeFlag::from_bits_retain(op_flag::ASYNC_CANCEL).get_codes(), vec![opcode::AsyncCancel::CODE]);
    assert_eq!(OpCodeFlag::from_bits_retain(op_flag::SHUTDOWN).get_codes(), vec![opcode::Shutdown::CODE]);
    assert_eq!(OpCodeFlag::all().get_codes().len(), 17);
    assert_eq!(OpCodeFlag::empty().get_codes(), Vec::<u8>::new());
}

#[test]
fn flag_set_operations() {
    let a = OpCodeFlag::from_bits_retain(op_flag::READ | op_flag::WRITE);
    let b = OpCodeFlag::from_bits_retain(op_flag::WRITE);
    assert!(a.contains(b));
    assert!(!b.contains(a));
    assert_eq!(a.intersection(b).bits(), op_flag::WRITE);
    assert_eq!(b.union(OpCodeFlag::from_bits_retain(op_flag::READ)).bits(), a.bits());
    assert!(OpCodeFlag::from_bits(1 << 20).is_none());
    assert_eq!(OpCodeFlag::from_bits_truncate(0xffff_ffff).bits(), op_flag::ALL_BITS);
    assert!(OpCodeFlag::empty().is_empty());
}

#[test]
fn all_codes_given_once_each() {
    let codes = OpCodeFlag::all().get_codes();
    assert_eq!(codes.len(), 17);
    for (i, a) in codes.iter().enumerate() {
        for b in codes.iter().skip(i + 1) {
            assert_ne!(a, b);
        }
    }
    let some = OpCodeFlag::from_bits_retain(op_flag::SPLICE | op_flag::READ).get_codes();
    assert_eq!(some, vec![22, 30]);
}
