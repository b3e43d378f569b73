use compio_driver::interest::{Event, Interest, WaitArg};
use compio_driver::io_result::IoError;
use compio_driver::registry::{PushStep, Registry, RenewAction};

#[test]
fn submit_adds_then_modifies() {
    let mut r = Registry::new();
    let p1 = r.submit(100, WaitArg::readable(5));
    assert!(p1.need_add);
    assert_eq!(p1.event, Event { key: 100, readable: true, writable: false });
    let p2 = r.submit(200, WaitArg::writable(5));
    assert!(!p2.need_add);
    assert_eq!(p2.event, Event { key: 200, readable: true, writable: true });
    assert!(r.contains(5));
}

#[test]
fn rollback_of_first_submit_unregisters() {
    let mut r = Registry::new();
    let p = r.submit(1, WaitArg::readable(9));
    r.rollback_submit(9, p.token);
    assert!(!r.contains(9));
}

#[test]
fn rollback_keeps_earlier_waiters() {
    let mut r = Registry::new();
    r.submit(1, WaitArg::readable(9));
    let p = r.submit(2, WaitArg::readable(9));
    r.rollback_submit(9, p.token);
    assert!(r.contains(9));
    assert_eq!(r.event_of(9), Event { key: 1, readable: true, writable: false });
}

#[test]
fn remove_one_asks_to_delete_an_idle_fd() {
    let mut r = Registry::new();
    r.submit(1, WaitArg::readable(3));
    r.submit(2, WaitArg::writable(4));
    assert_eq!(r.remove_one(1, 3), Some(RenewAction::Delete));
    assert!(!r.contains(3));
    assert!(r.contains(4));
    assert_eq!(r.remove_one(1, 3), None);
}

#[test]
fn remove_one_asks_to_modify_a_busy_fd() {
    let mut r = Registry::new();
    r.submit(1, WaitArg::readable(3));
    r.submit(2, WaitArg::writable(3));
    assert_eq!(
        r.remove_one(1, 3),
        Some(RenewAction::Modify(Event { key: 2, readable: false, writable: true }))
    );
}

#[test]
fn pop_and_renew() {
    let mut r = Registry::new();
    r.submit(1, WaitArg::readable(3));
    let ev = Event { key: 1, readable: true, writable: false };
    assert_eq!(r.pop_interest(3, &ev), Some((1, Interest::Readable)));
    assert_eq!(r.renew_plan(3), RenewAction::Delete);
    r.forget(3);
    assert!(!r.contains(3));
}

#[test]
fn submit_front_goes_before_the_waiters() {
    let mut r = Registry::new();
    r.submit(1, WaitArg::readable(3));
    let p = r.submit_front(2, WaitArg::readable(3));
    assert!(!p.need_add);
    assert_eq!(p.event.key, 2);
}

#[test]
fn renew_action_of_events() {
    assert_eq!(Registry::renew_action(Event::none(7)), RenewAction::Delete);
    let e = Event { key: 7, readable: true, writable: false };
    assert_eq!(Registry::renew_action(e), RenewAction::Modify(e));
}

#[test]
fn removed_key_no_longer_woken() {
    let mut r = Registry::new();
    r.submit(1, WaitArg::readable(4));
    r.submit(2, WaitArg::readable(4));
    r.submit(1, WaitArg::writable(4));
    assert_eq!(r.remove_one(1, 4), Some(RenewAction::Modify(Event { key: 2, readable: true, writable: false })));
    assert_eq!(r.remove_one(1, 4), Some(RenewAction::Modify(Event { key: 2, readable: true, writable: false })));
    let ev = Event { key: 0, readable: true, writable: true };
    assert_eq!(r.pop_interest(4, &ev), Some((2, Interest::Readable)));
    assert_eq!(r.pop_interest(4, &ev), None);
}

#[test]
fn removing_on_one_fd_leaves_others() {
    let mut r = Registry::new();
    r.submit(1, WaitArg::readable(4));
    r.submit(1, WaitArg::writable(5));
    assert_eq!(r.remove_one(1, 4), Some(RenewAction::Delete));
    assert!(!r.contains(4));
    assert!(r.contains(5));
    assert_eq!(r.event_of(5), Event { key: 1, readable: false, writable: true });
    assert_eq!(r.remove_one(1, 6), None);
}

#[test]
fn refused_push_is_undone_on_every_fd() {
    let mut r = Registry::new();
    r.submit(7, WaitArg::readable(3));
    let args = vec![WaitArg::readable(3), WaitArg::writable(4), WaitArg::readable(5)];
    // the first two submissions are accepted, the third is refused and
    // rolled back by its token
    r.submit(9, args[0]);
    r.submit(9, args[1]);
    let p = r.submit(9, args[2]);
    r.rollback_submit(5, p.token);
    let actions = r.remove_key_from(9, &args);
    assert_eq!(actions.len(), 3);
    assert_eq!(
        actions[0],
        Some(RenewAction::Modify(Event { key: 7, readable: true, writable: false }))
    );
    assert_eq!(actions[1], Some(RenewAction::Delete));
    assert_eq!(actions[2], None);
    assert!(r.contains(3));
    assert!(!r.contains(4));
    assert!(!r.contains(5));
    assert_eq!(r.event_of(3), Event { key: 7, readable: true, writable: false });
}

#[test]
fn push_steps_register_in_order_and_undo_on_refusal() {
    let mut r = Registry::new();
    let args = vec![WaitArg::readable(3), WaitArg::writable(4)];
    assert!(matches!(Registry::push_start(&args), PushStep::Submit(0)));
    assert!(matches!(Registry::push_start(&Vec::new()), PushStep::Pending));
    r.submit(9, args[0]);
    assert!(matches!(r.push_next(9, &args, 0, Ok(())), PushStep::Submit(1)));
    let p = r.submit(9, args[1]);
    r.rollback_submit(4, p.token);
    match r.push_next(9, &args, 1, Err(IoError::Os(1))) {
        PushStep::Fail(e, renewals) => {
            assert_eq!(e, IoError::Os(1));
            assert_eq!(renewals, vec![Some(RenewAction::Delete), None]);
        }
        _ => panic!("a refused registration fails the push"),
    }
    assert!(!r.contains(3));
    assert!(!r.contains(4));
    let mut r = Registry::new();
    r.submit(9, args[0]);
    r.submit(9, args[1]);
    assert!(matches!(r.push_next(9, &args, 1, Ok(())), PushStep::Pending));
    assert!(r.contains(3) && r.contains(4));
}
