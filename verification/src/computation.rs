//! Pending computations: the eventual result of one accepted call, resolved
//! exactly once, behind a type-erased handle with a uniform poll interface.

use vstd::prelude::*;

verus! {

/// What one poll of a pending computation reports: the result is not yet
/// available, or the computation has resolved to its one result.
pub enum PollOutcome<T, E> {
    NotReady,
    Resolved(Result<T, E>),
}

/// A pending computation that resolves on its first poll, produced by units
/// that finish their work during `call` itself.
pub struct Immediate<T, E> {
    /// The result still owed; `None` once it has been yielded.
    pub value: Option<Result<T, E>>,
}

/// A pending computation that reports `NotReady` for a fixed number of polls
/// before resolving; it stands for work whose completion the caller must
/// wait for, re-polling when resumed.
pub struct Countdown<T, E> {
    /// Polls still to come before the result is yielded.
    pub remaining: usize,
    /// The result still owed; `None` once it has been yielded.
    pub value: Option<Result<T, E>>,
}

impl<T, E> Immediate<T, E> {
    /// The computation has already yielded its result.
    pub open spec fn resolved(&self) -> bool {
        self.value is None
    }

    /// The one result this computation yields.
    pub open spec fn outcome(&self) -> Result<T, E> {
        self.value->0
    }

    pub fn new(res: Result<T, E>) -> (c: Self)
        ensures
            !c.resolved(),
            c.outcome() == res,
    {
        Immediate { value: Some(res) }
    }

    pub fn poll(&mut self) -> (r: PollOutcome<T, E>)
        requires
            !old(self).resolved(),
        ensures
            final(self).resolved(),
            r == PollOutcome::Resolved(old(self).outcome()),
    {
        let res = self.value.take().unwrap();
        PollOutcome::Resolved(res)
    }
}

impl<T, E> Countdown<T, E> {
    /// The computation has already yielded its result.
    pub open spec fn resolved(&self) -> bool {
        self.value is None
    }

    /// The one result this computation yields.
    pub open spec fn outcome(&self) -> Result<T, E> {
        self.value->0
    }

    /// Polls left before the result is yielded.
    pub open spec fn steps(&self) -> nat {
        self.remaining as nat
    }

    pub fn new(wait: usize, res: Result<T, E>) -> (c: Self)
        ensures
            !c.resolved(),
            c.outcome() == res,
            c.steps() == wait,
    {
        Countdown { remaining: wait, value: Some(res) }
    }

    pub fn poll(&mut self) -> (r: PollOutcome<T, E>)
        requires
            !old(self).resolved(),
        ensures
            old(self).steps() == 0 ==> final(self).resolved()
                && r == PollOutcome::Resolved(old(self).outcome()),
            old(self).steps() > 0 ==> !final(self).resolved()
                && final(self).steps() == old(self).steps() - 1
                && final(self).outcome() == old(self).outcome()
                && r is NotReady,
    {
        if self.remaining == 0 {
            let res = self.value.take().unwrap();
            PollOutcome::Resolved(res)
        } else {
            self.remaining = self.remaining - 1;
            PollOutcome::NotReady
        }
    }
}

/// The erased handle over one pending computation: heterogeneous concrete
/// resolution mechanisms, stored as a tagged union behind one poll
/// interface, so units with different completion shapes share a caller.
pub enum Handle<T, E> {
    Immediate(Immediate<T, E>),
    Countdown(Countdown<T, E>),
}

impl<T, E> Handle<T, E> {
    /// The computation has already yielded its result.
    pub open spec fn resolved(&self) -> bool {
        match self {
            Handle::Immediate(c) => c.resolved(),
            Handle::Countdown(c) => c.resolved(),
        }
    }

    /// The one result this computation yields.
    pub open spec fn outcome(&self) -> Result<T, E> {
        match self {
            Handle::Immediate(c) => c.outcome(),
            Handle::Countdown(c) => c.outcome(),
        }
    }

    /// Polls left before the result is yielded.
    pub open spec fn steps(&self) -> nat {
        match self {
            Handle::Immediate(_) => 0,
            Handle::Countdown(c) => c.steps(),
        }
    }

    /// Wrap a result that is available at once.
    pub fn immediate(res: Result<T, E>) -> (h: Self)
        ensures
            !h.resolved(),
            h.outcome() == res,
            h.steps() == 0,
    {
        Handle::Immediate(Immediate::new(res))
    }

    /// Wrap a result that becomes available after `wait` polls.
    pub fn countdown(wait: usize, res: Result<T, E>) -> (h: Self)
        ensures
            !h.resolved(),
            h.outcome() == res,
            h.steps() == wait,
    {
        Handle::Countdown(Countdown::new(wait, res))
    }

    /// One poll: either the result is not yet available and strictly fewer
    /// polls remain, or the computation resolves to its one result.
    pub fn poll(&mut self) -> (r: PollOutcome<T, E>)
        requires
            !old(self).resolved(),
        ensures
            old(self).steps() == 0 ==> final(self).resolved()
                && r == PollOutcome::Resolved(old(self).outcome()),
            old(self).steps() > 0 ==> !final(self).resolved()
                && final(self).steps() == old(self).steps() - 1
                && final(self).outcome() == old(self).outcome()
                && r is NotReady,
    {
        match self {
            Handle::Immediate(c) => c.poll(),
            Handle::Countdown(c) => c.poll(),
        }
    }

    /// Drive the computation to completion. Every handle resolves after
    /// finitely many polls, to exactly one result: termination is checked,
    /// and a resolved computation can never be polled again.
    pub fn resolve(self) -> (r: Result<T, E>)
        requires
            !self.resolved(),
        ensures
            r == self.outcome(),
    {
        let mut h = self;
        loop
            invariant
                !h.resolved(),
                h.outcome() == self.outcome(),
            decreases h.steps(),
        {
            match h.poll() {
                PollOutcome::Resolved(res) => {
                    return res;
                }
                PollOutcome::NotReady => {}
            }
        }
    }

    /// Abandon the computation without resolving it. Cancellation is
    /// cooperative: the handle owns no capacity of its own, so dropping it
    /// is enough; the unit that admitted the call hands its reserved
    /// capacity back through that unit's release operation.
    pub fn cancel(self) {
    }
}

} // verus!
