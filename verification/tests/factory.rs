use readywork::factory::{into_unit, try_make, MakeOutcome};
use readywork::func::fn_unit;
use readywork::gated::Gated;
use readywork::readiness::Readiness;
use readywork::unit::UnitOfWork;

fn ping_unit() -> Gated<u32, impl Fn(String) -> Result<String, u32>> {
    Gated::new(
        |req: String| -> Result<String, u32> {
            if req == "ping" {
                Ok("pong".to_string())
            } else {
                Ok(req)
            }
        },
        1,
        0,
    )
}

fn echo_unit() -> readywork::func::FnWrapper<impl Fn(String) -> Result<String, u32>> {
    fn_unit(|req: String| -> Result<String, u32> { Ok(req) })
}

#[test]
fn factory_with_no_capacity_hands_the_context_back() {
    let mut f = Gated::new(|_sid: String| -> Result<_, u32> { Ok(echo_unit()) }, 0, 0);
    match try_make(&mut f, "s1".to_string()) {
        MakeOutcome::NotReady(ctx) => assert_eq!(ctx, "s1"),
        _ => panic!("a factory with no capacity must report NotReady"),
    }
}

#[test]
fn broken_factory_reports_its_terminal_error() {
    let mut f = Gated::new(|_sid: String| -> Result<_, u32> { Ok(echo_unit()) }, 1, 0);
    f.fail(5);
    match try_make(&mut f, "s1".to_string()) {
        MakeOutcome::Broken(e, ctx) => {
            assert_eq!(e, 5);
            assert_eq!(ctx, "s1");
        }
        _ => panic!("a broken factory must report Broken"),
    }
}

#[test]
fn adapter_agrees_with_direct_make() {
    // Calling the adapted factory with a context...
    let factory = fn_unit(|greeting: String| -> Result<String, u32> { Ok(greeting + "!") });
    let mut adapted = into_unit(factory);
    assert!(matches!(adapted.check_ready(), Readiness::Ready));
    let via_adapter = adapted.call("hi".to_string()).resolve();

    // ...yields the same value as the factory's own call on that context.
    let mut direct = fn_unit(|greeting: String| -> Result<String, u32> { Ok(greeting + "!") });
    assert!(matches!(direct.check_ready(), Readiness::Ready));
    let via_factory = direct.call("hi".to_string()).resolve();

    assert_eq!(via_adapter, via_factory);
    assert_eq!(via_adapter, Ok("hi!".to_string()));
}

#[test]
fn session_factory_mints_independent_units() {
    // A work factory whose context is a session id.
    let factory = fn_unit(|_sid: String| -> Result<_, u32> { Ok(ping_unit()) });
    let mut svc = into_unit(factory);

    // Make a unit for session "s1" and drive one request through it.
    let mut u1 = match try_make(&mut svc, "s1".to_string()) {
        MakeOutcome::Made(c) => c.resolve().expect("the factory never fails"),
        _ => panic!("the factory must be ready"),
    };
    assert!(matches!(u1.check_ready(), Readiness::Ready));
    assert_eq!(u1.call("ping".to_string()).resolve(), Ok("pong".to_string()));

    // u1 now has its one slot in flight, so it reports Pending.
    assert!(matches!(u1.check_ready(), Readiness::Pending));

    // A second make for the same session id yields an independent unit,
    // unaffected by u1's state.
    let mut u2 = match try_make(&mut svc, "s1".to_string()) {
        MakeOutcome::Made(c) => c.resolve().expect("the factory never fails"),
        _ => panic!("the factory must be ready"),
    };
    assert!(matches!(u2.check_ready(), Readiness::Ready));
    assert_eq!(u2.call("ping".to_string()).resolve(), Ok("pong".to_string()));
}
