use compio_driver::interest::WaitArg;
use compio_driver::poll_extra::Extra;

#[test]
fn single_fd_ready_on_its_event() {
    let mut e = Extra::new();
    e.set_args(&vec![WaitArg::readable(4)]);
    assert!(!e.handle_event(5));
    assert!(e.handle_event(4));
}

#[test]
fn two_fds_ready_when_both_report() {
    let mut e = Extra::new();
    e.set_args(&vec![WaitArg::readable(4), WaitArg::writable(5)]);
    assert!(!e.handle_event(4));
    assert!(e.handle_event(5));
    e.reset();
    assert!(e.tracks().iter().all(|t| !t.ready));
    assert!(!e.handle_event(5));
}

#[test]
fn no_tracks_never_ready() {
    let mut e = Extra::new();
    assert!(!e.handle_event(1));
}
