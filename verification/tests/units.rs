use readywork::computation::Handle;
use readywork::func::fn_unit;
use readywork::hello::{HelloWorld, HttpRequest};
use readywork::readiness::Readiness;
use readywork::unit::{complete_call, UnitOfWork};

#[test]
fn fn_wrapper_is_always_ready() {
    let mut w = fn_unit(|x: u32| -> Result<u32, u32> { Ok(x + 1) });
    for _ in 0..10 {
        assert!(matches!(w.check_ready(), Readiness::Ready));
    }
    let c: Handle<u32, u32> = w.call(41);
    assert_eq!(c.resolve(), Ok(42));
    // Still ready after a call: the wrapper has no state to exhaust.
    assert!(matches!(w.check_ready(), Readiness::Ready));
}

#[test]
fn fn_wrapper_surfaces_synchronous_failure_as_resolved_err() {
    let mut w = fn_unit(|x: u32| -> Result<u32, u32> {
        if x == 0 {
            Err(99)
        } else {
            Ok(x)
        }
    });
    assert!(matches!(w.check_ready(), Readiness::Ready));
    let c: Handle<u32, u32> = w.call(0);
    // The failure arrives as a resolved Err, not as an aborted call.
    assert_eq!(c.resolve(), Err(99));
}

#[test]
fn complete_call_returns_exactly_one_result() {
    let mut w = fn_unit(|x: u32| -> Result<u32, u32> { Ok(2 * x) });
    assert!(matches!(w.check_ready(), Readiness::Ready));
    assert_eq!(complete_call(&mut w, 21), Ok(42));
}

#[test]
fn hello_world_is_ready_and_greets() {
    let mut h = HelloWorld;
    assert!(matches!(h.check_ready(), Readiness::Ready));
    let c = h.call(HttpRequest { body: Vec::new() });
    let resp = c.resolve().expect("the greeting responder never fails");
    assert_eq!(resp.status, 200);
    assert_eq!(resp.body, b"hello, world!\n".to_vec());
}
