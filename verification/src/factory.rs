//! Work factories and the factory-to-unit adapter. A factory is itself a
//! readiness-gated unit of work whose request is a creation context and
//! whose response is a newly minted unit; the adapter lets any factory be
//! driven through the unit-of-work interface unchanged.

use vstd::prelude::*;
use crate::computation::Handle;
use crate::readiness::Readiness;
use crate::unit::UnitOfWork;

verus! {

/// Adapter presenting a work factory as an ordinary unit of work. It
/// delegates both operations verbatim: it buffers nothing, transforms no
/// error, and reports exactly the readiness the factory reports.
pub struct IntoUnit<M> {
    /// The adapted factory.
    pub inner: M,
}

/// Convert a work factory into a unit of work whose request is the creation
/// context and whose response is the new unit.
pub fn into_unit<M>(factory: M) -> (u: IntoUnit<M>)
    ensures
        u.inner == factory,
{
    IntoUnit { inner: factory }
}

impl<Ctx, Svc, E, M: UnitOfWork<Ctx, Svc, E>> UnitOfWork<Ctx, Svc, E> for IntoUnit<M> {
    open spec fn inv(&self) -> bool {
        self.inner.inv()
    }

    open spec fn failure(&self) -> Option<E> {
        self.inner.failure()
    }

    open spec fn can_admit(&self) -> bool {
        self.inner.can_admit()
    }

    open spec fn armed(&self) -> bool {
        self.inner.armed()
    }

    /// A probe of the adapter is exactly a probe of the factory.
    open spec fn probe_step(pre: Self, r: Readiness<E>, post: Self) -> bool {
        M::probe_step(pre.inner, r, post.inner)
    }

    /// A call of the adapter is exactly a `make` of the factory.
    open spec fn call_step(pre: Self, ctx: Ctx, post: Self, c: Handle<Svc, E>) -> bool {
        M::call_step(pre.inner, ctx, post.inner, c)
    }

    fn check_ready(&mut self) -> (r: Readiness<E>) {
        self.inner.check_ready()
    }

    fn call(&mut self, ctx: Ctx) -> (c: Handle<Svc, E>) {
        self.inner.call(ctx)
    }
}

/// Law: conversion changes nothing. Invoking an adapted factory with a
/// context admits exactly the transitions, pending computations and results
/// that the factory's own `make` — its `call` — admits.
pub proof fn adapter_call_agrees_with_factory<Ctx, Svc, E, M: UnitOfWork<Ctx, Svc, E>>(
    pre: IntoUnit<M>, ctx: Ctx, post: IntoUnit<M>, c: Handle<Svc, E>,
)
    ensures
        <IntoUnit<M> as UnitOfWork<Ctx, Svc, E>>::call_step(pre, ctx, post, c)
            <==> M::call_step(pre.inner, ctx, post.inner, c),
{
}

/// Law: the adapter reports the factory's own state: the same terminal
/// error, the same capacity, the same armed window, and exactly the
/// factory's probe transitions.
pub proof fn adapter_reports_factory_state<Ctx, Svc, E, M: UnitOfWork<Ctx, Svc, E>>(
    pre: IntoUnit<M>, r: Readiness<E>, post: IntoUnit<M>,
)
    ensures
        <IntoUnit<M> as UnitOfWork<Ctx, Svc, E>>::failure(&pre) == M::failure(&pre.inner),
        <IntoUnit<M> as UnitOfWork<Ctx, Svc, E>>::can_admit(&pre) == M::can_admit(&pre.inner),
        <IntoUnit<M> as UnitOfWork<Ctx, Svc, E>>::armed(&pre) == M::armed(&pre.inner),
        <IntoUnit<M> as UnitOfWork<Ctx, Svc, E>>::probe_step(pre, r, post)
            <==> M::probe_step(pre.inner, r, post.inner),
{
}

/// What one attempt to make a new unit reports: the factory admitted the
/// context and building is under way, or the context is handed back with
/// the reason.
pub enum MakeOutcome<Svc, E, Ctx> {
    /// The factory admitted the context; the pending computation yields
    /// the new unit.
    Made(Handle<Svc, E>),
    /// The factory has no capacity now; probe again once a pending build
    /// resolves.
    NotReady(Ctx),
    /// The factory is terminally broken with this error.
    Broken(E, Ctx),
}

/// Probe a factory and, once it reports `Ready`, ask it for a new unit of
/// work built for `ctx`: the one-step form of the check-then-call protocol.
/// When the factory cannot admit the context, the context comes back.
pub fn try_make<Ctx, Svc, E, M: UnitOfWork<Ctx, Svc, E>>(factory: &mut M, ctx: Ctx)
    -> (out: MakeOutcome<Svc, E, Ctx>)
    requires
        old(factory).inv(),
    ensures
        final(factory).inv(),
        (match out {
            MakeOutcome::Made(c) => !c.resolved() && old(factory).failure() is None
                && old(factory).can_admit()
                && (exists|mid: M| #[trigger] M::probe_step(*old(factory), Readiness::Ready, mid)
                    && M::call_step(mid, ctx, *final(factory), c)),
            MakeOutcome::NotReady(back) => back == ctx && old(factory).failure() is None
                && !old(factory).can_admit()
                && M::probe_step(*old(factory), Readiness::Pending, *final(factory)),
            MakeOutcome::Broken(e, back) => back == ctx && old(factory).failure() == Some(e)
                && M::probe_step(*old(factory), Readiness::Failed(e), *final(factory)),
        }),
{
    match factory.check_ready() {
        Readiness::Ready => {
            let ghost mid = *factory;
            let c = factory.call(ctx);
            proof {
                assert(M::probe_step(*old(factory), Readiness::Ready, mid)
                    && M::call_step(mid, ctx, *factory, c));
            }
            MakeOutcome::Made(c)
        }
        Readiness::Pending => MakeOutcome::NotReady(ctx),
        Readiness::Failed(e) => MakeOutcome::Broken(e, ctx),
    }
}

} // verus!
