use readywork::computation::{Countdown, Handle, Immediate, PollOutcome};

#[test]
fn immediate_resolves_on_first_poll() {
    let res: Result<u32, u32> = Ok(5);
    let mut c = Immediate::new(res);
    match c.poll() {
        PollOutcome::Resolved(Ok(v)) => assert_eq!(v, 5),
        _ => panic!("immediate computation did not resolve on first poll"),
    }
}

#[test]
fn countdown_waits_then_resolves() {
    let res: Result<u32, u32> = Ok(9);
    let mut c = Countdown::new(2, res);
    assert!(matches!(c.poll(), PollOutcome::NotReady));
    assert!(matches!(c.poll(), PollOutcome::NotReady));
    match c.poll() {
        PollOutcome::Resolved(Ok(v)) => assert_eq!(v, 9),
        _ => panic!("countdown did not resolve after its waits"),
    }
}

#[test]
fn handle_resolve_drives_to_the_result() {
    let res: Result<u32, u32> = Ok(7);
    let h = Handle::countdown(3, res);
    assert_eq!(h.resolve(), Ok(7));
}

#[test]
fn handle_resolve_surfaces_the_error() {
    let res: Result<u32, u32> = Err(13);
    let h = Handle::immediate(res);
    assert_eq!(h.resolve(), Err(13));
}

#[test]
fn handle_cancel_consumes_without_result() {
    let res: Result<u32, u32> = Ok(1);
    let h = Handle::immediate(res);
    h.cancel();
}
