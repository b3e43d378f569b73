use compio_driver::thread_map::ThreadMap;

#[test]
fn each_thread_gets_its_own_value() {
    let mut m = ThreadMap::new(|| vec![0u8]);
    m.get_mut(1).push(1);
    m.get_mut(2).push(2);
    m.get_mut(1).push(3);
    assert_eq!(*m.get_mut(1), vec![0, 1, 3]);
    assert_eq!(*m.get_mut(2), vec![0, 2]);
    assert_eq!(*m.get_mut(3), vec![0]);
}
