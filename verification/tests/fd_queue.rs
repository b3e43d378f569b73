use compio_driver::fd_queue::{FdQueue, RemoveToken};
use compio_driver::interest::{Event, Interest};

#[test]
fn push_back_then_remove_token_restores() {
    let mut q = FdQueue::new();
    q.push_back_interest(1, Interest::Readable);
    let t = q.push_back_interest(2, Interest::Readable);
    assert_eq!(t, RemoveToken { idx: 1, is_read: true });
    assert_eq!(q.remove_token(t), Some(2));
    let e = q.event();
    assert!(e.readable && !e.writable);
    assert_eq!(e.key, 1);
}

#[test]
fn push_front_then_remove_token_restores() {
    let mut q = FdQueue::new();
    q.push_back_interest(7, Interest::Writable);
    let t = q.push_front_interest(8, Interest::Writable);
    assert_eq!(t, RemoveToken { idx: 0, is_read: false });
    assert_eq!(q.event().key, 8);
    assert_eq!(q.remove_token(t), Some(8));
    assert_eq!(q.event().key, 7);
}

#[test]
fn remove_token_out_of_range_is_none() {
    let mut q = FdQueue::new();
    q.push_back_interest(1, Interest::Readable);
    assert_eq!(q.remove_token(RemoveToken::read(5)), None);
    assert_eq!(q.remove_token(RemoveToken::write(0)), None);
    assert!(!q.is_empty());
}

#[test]
fn remove_takes_every_waiter_of_the_key() {
    let mut q = FdQueue::new();
    q.push_back_interest(1, Interest::Readable);
    q.push_back_interest(2, Interest::Readable);
    q.push_back_interest(1, Interest::Writable);
    q.push_back_interest(1, Interest::Readable);
    q.remove(1);
    let e = q.event();
    assert!(e.readable && !e.writable);
    assert_eq!(e.key, 2);
    q.remove(2);
    assert!(q.is_empty());
    assert_eq!(q.event(), Event::none(0));
}

#[test]
fn event_prefers_the_front_writer_key() {
    let mut q = FdQueue::new();
    q.push_back_interest(3, Interest::Readable);
    q.push_back_interest(4, Interest::Writable);
    assert_eq!(q.event(), Event { key: 4, readable: true, writable: true });
}

#[test]
fn pop_interest_wakes_in_order() {
    let mut q = FdQueue::new();
    q.push_back_interest(10, Interest::Readable);
    q.push_back_interest(11, Interest::Readable);
    q.push_back_interest(12, Interest::Writable);
    let both = Event { key: 0, readable: true, writable: true };
    assert_eq!(q.pop_interest(&both), Some((10, Interest::Readable)));
    assert_eq!(q.pop_interest(&both), Some((11, Interest::Readable)));
    assert_eq!(q.pop_interest(&both), Some((12, Interest::Writable)));
    assert_eq!(q.pop_interest(&both), None);
    assert!(q.is_empty());
}

#[test]
fn pop_interest_honours_the_event_direction() {
    let mut q = FdQueue::new();
    q.push_back_interest(10, Interest::Readable);
    q.push_back_interest(12, Interest::Writable);
    let writable = Event { key: 0, readable: false, writable: true };
    assert_eq!(q.pop_interest(&writable), Some((12, Interest::Writable)));
    assert_eq!(q.pop_interest(&writable), None);
    assert!(!q.is_empty());
}
