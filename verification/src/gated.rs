//! A capacity-limited unit of work: a function-backed unit that admits at
//! most `capacity` calls at once, reserves a slot for each `Ready` it
//! reports, returns capacity when a call's computation is finished or
//! cancelled, and can break permanently into a terminal error state.

use vstd::prelude::*;
use crate::computation::Handle;
use crate::readiness::Readiness;
use crate::unit::UnitOfWork;

verus! {

/// A unit of work with internal capacity. Each `Ready` reported by
/// `check_ready` reserves one slot; `call` converts a reservation into an
/// in-flight call whose computation resolves after `latency` polls;
/// `release` hands the slot back once that computation has resolved or been
/// cancelled. `fail` puts the unit into its terminal state, which absorbs
/// every other state: from then on every probe reports the same error and
/// no call is ever permitted again.
pub struct Gated<E, F> {
    /// The function that serves each admitted request.
    pub f: F,
    /// How many calls may be reserved or in flight at once.
    pub capacity: usize,
    /// Polls before an admitted call's computation resolves.
    pub latency: usize,
    /// Calls admitted and not yet released.
    pub in_flight: usize,
    /// `Ready` observations in force, not yet converted into calls.
    pub reserved: usize,
    /// The terminal error, once the unit has broken.
    pub fault: Option<E>,
}

impl<E, F> Gated<E, F> {
    /// The slot bookkeeping never promises more than the capacity.
    pub open spec fn counters_ok(&self) -> bool {
        self.in_flight + self.reserved <= self.capacity
    }

    /// A fresh unit: healthy, nothing reserved, nothing in flight.
    pub fn new(f: F, capacity: usize, latency: usize) -> (g: Self)
        ensures
            g.f == f,
            g.capacity == capacity,
            g.latency == latency,
            g.in_flight == 0,
            g.reserved == 0,
            g.fault is None,
    {
        Gated { f, capacity, latency, in_flight: 0, reserved: 0, fault: None }
    }

    /// Enter the terminal broken state with error `e`. It absorbs every
    /// state: outstanding reservations are revoked, so no further call is
    /// permitted, while calls already in flight keep their slots until
    /// released.
    pub fn fail(&mut self, e: E)
        ensures
            final(self).fault == Some(e),
            final(self).reserved == 0,
            final(self).f == old(self).f,
            final(self).capacity == old(self).capacity,
            final(self).latency == old(self).latency,
            final(self).in_flight == old(self).in_flight,
    {
        self.fault = Some(e);
        self.reserved = 0;
    }

    /// Hand back the slot of one admitted call, after its pending
    /// computation has resolved or been cancelled. This is what makes a
    /// cancelled call's capacity observable again: with no other calls
    /// outstanding, the next probe of a healthy unit reports `Ready`.
    pub fn release(&mut self)
        requires
            old(self).in_flight > 0,
        ensures
            final(self).in_flight == old(self).in_flight - 1,
            final(self).f == old(self).f,
            final(self).capacity == old(self).capacity,
            final(self).latency == old(self).latency,
            final(self).reserved == old(self).reserved,
            final(self).fault == old(self).fault,
    {
        self.in_flight = self.in_flight - 1;
    }
}

impl<Req, Resp, E: Copy, F: Fn(Req) -> Result<Resp, E>> UnitOfWork<Req, Resp, E> for Gated<E, F> {
    /// The counters are coherent and the function accepts every request.
    open spec fn inv(&self) -> bool {
        self.counters_ok() && forall|req: Req| call_requires(self.f, (req,))
    }

    open spec fn failure(&self) -> Option<E> {
        self.fault
    }

    /// One more slot can be promised beyond those reserved or in flight.
    open spec fn can_admit(&self) -> bool {
        self.in_flight + self.reserved < self.capacity
    }

    /// Each reservation permits one call.
    open spec fn armed(&self) -> bool {
        self.reserved > 0
    }

    /// A probe either reports the terminal error, reserves one free slot
    /// and reports `Ready`, or reports `Pending` with every slot promised;
    /// nothing else about the unit changes.
    open spec fn probe_step(pre: Self, r: Readiness<E>, post: Self) -> bool {
        match r {
            Readiness::Ready => pre.fault is None
                && pre.in_flight + pre.reserved < pre.capacity
                && post == (Gated { reserved: (pre.reserved + 1) as usize, ..pre }),
            Readiness::Pending => pre.fault is None
                && pre.in_flight + pre.reserved >= pre.capacity
                && post == pre,
            Readiness::Failed(e) => pre.fault == Some(e) && post == pre,
        }
    }

    /// A call converts one reservation into an in-flight call; its pending
    /// computation resolves, after `latency` polls, to an output of the
    /// function on this request.
    open spec fn call_step(pre: Self, req: Req, post: Self, c: Handle<Resp, E>) -> bool {
        pre.reserved > 0
            && post == (Gated {
                reserved: (pre.reserved - 1) as usize,
                in_flight: (pre.in_flight + 1) as usize,
                ..pre
            })
            && c.steps() == pre.latency
            && call_ensures(pre.f, (req,), c.outcome())
    }

    fn check_ready(&mut self) -> (r: Readiness<E>) {
        match self.fault {
            Some(e) => Readiness::Failed(e),
            None => {
                if self.in_flight + self.reserved < self.capacity {
                    self.reserved = self.reserved + 1;
                    Readiness::Ready
                } else {
                    Readiness::Pending
                }
            }
        }
    }

    fn call(&mut self, req: Req) -> (c: Handle<Resp, E>) {
        self.reserved = self.reserved - 1;
        self.in_flight = self.in_flight + 1;
        let out = (self.f)(req);
        Handle::countdown(self.latency, out)
    }
}

/// Law: the terminal state absorbs. Once the unit has failed with `e`,
/// every probe transition it admits reports `Failed(e)` and changes
/// nothing; and since `fail` revoked all reservations, a unit that failed
/// with none outstanding can never be armed again, so no call is ever
/// permitted after the failure.
pub proof fn gated_fault_is_terminal<Req, Resp, E: Copy, F: Fn(Req) -> Result<Resp, E>>(
    pre: Gated<E, F>, r: Readiness<E>, post: Gated<E, F>, e: E,
)
    requires
        pre.fault == Some(e),
        <Gated<E, F> as UnitOfWork<Req, Resp, E>>::probe_step(pre, r, post),
    ensures
        r == Readiness::<E>::Failed(e),
        post == pre,
        pre.reserved == 0 ==> !<Gated<E, F> as UnitOfWork<Req, Resp, E>>::armed(&post),
{
}

/// Law: a `Ready` observation reserves real capacity. Two consecutive
/// `Ready` probes, with nothing released in between, are only possible
/// when the unit could admit both calls; with capacity for only one, the
/// second probe must report `Pending` instead.
pub proof fn gated_ready_reserves<Req, Resp, E: Copy, F: Fn(Req) -> Result<Resp, E>>(
    s0: Gated<E, F>, s1: Gated<E, F>, s2: Gated<E, F>,
)
    requires
        <Gated<E, F> as UnitOfWork<Req, Resp, E>>::probe_step(s0, Readiness::Ready, s1),
        <Gated<E, F> as UnitOfWork<Req, Resp, E>>::probe_step(s1, Readiness::Ready, s2),
    ensures
        s0.in_flight + s0.reserved + 2 <= s0.capacity,
        s2.reserved == s0.reserved + 2,
        s2.in_flight == s0.in_flight,
{
}

/// Law: finishing or cancelling a call restores readiness. After the last
/// outstanding call is released, a healthy unit with no reservations in
/// force and room in its capacity admits again, so its next probe reports
/// `Ready`.
pub proof fn gated_release_restores_readiness<Req, Resp, E: Copy, F: Fn(Req) -> Result<Resp, E>>(
    pre: Gated<E, F>, post: Gated<E, F>,
)
    requires
        pre.in_flight > 0,
        post == (Gated { in_flight: (pre.in_flight - 1) as usize, ..pre }),
        post.fault is None,
        post.in_flight + post.reserved < post.capacity,
    ensures
        <Gated<E, F> as UnitOfWork<Req, Resp, E>>::can_admit(&post),
{
}

} // verus!
