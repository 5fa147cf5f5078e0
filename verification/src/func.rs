//! The functional wrapper: lifts a plain function into a readiness-gated
//! unit of work with no capacity limit and no state of its own.

use vstd::prelude::*;
use crate::computation::Handle;
use crate::readiness::Readiness;
use crate::unit::UnitOfWork;

verus! {

/// A unit of work lifted from a plain function. It tracks no capacity, so
/// its readiness probe always reports `Ready`; a call hands the request to
/// the function and wraps the function's result — the error case included —
/// in a pending computation that resolves at once.
pub struct FnWrapper<F> {
    /// The wrapped function.
    pub f: F,
}

/// Lift a function into a readiness-gated unit of work.
pub fn fn_unit<F>(f: F) -> (w: FnWrapper<F>)
    ensures
        w.f == f,
{
    FnWrapper { f }
}

impl<Req, Resp, E, F: Fn(Req) -> Result<Resp, E>> UnitOfWork<Req, Resp, E> for FnWrapper<F> {
    /// The function accepts every request.
    open spec fn inv(&self) -> bool {
        forall|req: Req| call_requires(self.f, (req,))
    }

    /// A functional wrapper never breaks.
    open spec fn failure(&self) -> Option<E> {
        None
    }

    /// No capacity limit: one more request can always be admitted.
    open spec fn can_admit(&self) -> bool {
        true
    }

    /// A call is always permitted.
    open spec fn armed(&self) -> bool {
        true
    }

    /// A probe changes nothing and reports `Ready`.
    open spec fn probe_step(pre: Self, r: Readiness<E>, post: Self) -> bool {
        post == pre && r is Ready
    }

    /// A call changes nothing; the computation it returns resolves at once
    /// to an output of the wrapped function on this request.
    open spec fn call_step(pre: Self, req: Req, post: Self, c: Handle<Resp, E>) -> bool {
        post == pre && c.steps() == 0 && call_ensures(pre.f, (req,), c.outcome())
    }

    fn check_ready(&mut self) -> (r: Readiness<E>) {
        Readiness::Ready
    }

    fn call(&mut self, req: Req) -> (c: Handle<Resp, E>) {
        let out = (self.f)(req);
        Handle::immediate(out)
    }
}

/// Law: a functional wrapper never reports `Pending` or `Failed` — it has
/// no capacity to run out of and no terminal state — and a call is
/// permitted at any time. With the probe contract, every `check_ready`
/// on it must report `Ready`.
pub proof fn fn_wrapper_always_ready<Req, Resp, E, F: Fn(Req) -> Result<Resp, E>>(
    w: FnWrapper<F>,
)
    ensures
        <FnWrapper<F> as UnitOfWork<Req, Resp, E>>::failure(&w) is None,
        <FnWrapper<F> as UnitOfWork<Req, Resp, E>>::can_admit(&w),
        <FnWrapper<F> as UnitOfWork<Req, Resp, E>>::armed(&w),
{
}

/// Law: a readiness probe of a functional wrapper is observably a no-op:
/// any probe transition it admits reports `Ready` and leaves the wrapper
/// exactly as it was, for any number of consecutive probes.
pub proof fn fn_wrapper_probe_is_identity<Req, Resp, E, F: Fn(Req) -> Result<Resp, E>>(
    pre: FnWrapper<F>, r: Readiness<E>, post: FnWrapper<F>,
)
    requires
        <FnWrapper<F> as UnitOfWork<Req, Resp, E>>::probe_step(pre, r, post),
    ensures
        post == pre,
        r is Ready,
{
}

} // verus!
