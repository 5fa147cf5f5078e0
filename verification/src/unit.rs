//! The readiness-gated unit of work: the two-operation contract every
//! concrete unit implements, and the helper that drives one gated call to
//! its single result.

use vstd::prelude::*;
use crate::computation::Handle;
use crate::readiness::Readiness;

verus! {

/// A readiness-gated unit of work. A unit first reports, through
/// `check_ready`, whether it can accept one request without blocking on its
/// internal capacity; once `Ready` has been observed, exactly one `call` may
/// submit a request and receive a pending computation for its result.
///
/// Each implementation chooses the spec functions: its well-formedness
/// (`inv`), its terminal error if it has broken (`failure`), whether it can
/// admit one more request now (`can_admit`), whether a `Ready` observation
/// is in force (`armed`), and the exact transitions its two operations make
/// (`probe_step`, `call_step`). The method contracts below then hold of
/// every unit: a probe never loses the terminal error, reports `Ready` only
/// with capacity in hand, reports `Pending` only without it, and reports
/// `Failed` exactly when the unit has broken; a call is permitted only while
/// armed and returns an unresolved pending computation.
pub trait UnitOfWork<Req, Resp, E>: Sized {
    /// Well-formedness that `check_ready` and `call` preserve.
    spec fn inv(&self) -> bool;

    /// The terminal error, once the unit has broken permanently.
    spec fn failure(&self) -> Option<E>;

    /// Capacity to admit one more request is available now.
    spec fn can_admit(&self) -> bool;

    /// A `Ready` observation is in force, so one `call` is permitted.
    spec fn armed(&self) -> bool;

    /// The exact transition one readiness probe makes.
    spec fn probe_step(pre: Self, r: Readiness<E>, post: Self) -> bool;

    /// The exact relation between the unit before and after one call and
    /// the pending computation that the call returned.
    spec fn call_step(pre: Self, req: Req, post: Self, c: Handle<Resp, E>) -> bool;

    /// Probe whether the next `call` would be accepted. Never submits work
    /// and never loses a terminal error.
    fn check_ready(&mut self) -> (r: Readiness<E>)
        requires
            old(self).inv(),
        ensures
            final(self).inv(),
            final(self).failure() == old(self).failure(),
            Self::probe_step(*old(self), r, *final(self)),
            (match r {
                Readiness::Ready => old(self).failure() is None && old(self).can_admit()
                    && final(self).armed(),
                Readiness::Pending => old(self).failure() is None && !old(self).can_admit(),
                Readiness::Failed(e) => old(self).failure() == Some(e),
            }),
    ;

    /// Submit one request. Permitted only while a `Ready` observation is in
    /// force; returns a pending computation that has not yet resolved.
    fn call(&mut self, req: Req) -> (c: Handle<Resp, E>)
        requires
            old(self).inv(),
            old(self).armed(),
        ensures
            final(self).inv(),
            !c.resolved(),
            Self::call_step(*old(self), req, *final(self), c),
    ;
}

/// Submit one request to an armed unit and drive the returned computation
/// to completion: the call that follows a `Ready` observation yields
/// exactly one result, after finitely many polls.
pub fn complete_call<Req, Resp, E, U: UnitOfWork<Req, Resp, E>>(u: &mut U, req: Req)
    -> (r: Result<Resp, E>)
    requires
        old(u).inv(),
        old(u).armed(),
    ensures
        final(u).inv(),
        (exists|c: Handle<Resp, E>| #[trigger] U::call_step(*old(u), req, *final(u), c)
            && !c.resolved() && r == c.outcome()),
{
    let c = u.call(req);
    let ghost gc = c;
    let r = c.resolve();
    proof {
        assert(U::call_step(*old(u), req, *u, gc) && !gc.resolved() && r == gc.outcome());
    }
    r
}

} // verus!
