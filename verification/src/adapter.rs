//! The two adapters: the immediate variant, which bridges configuration into
//! an already-ready inner service, and the deferred variant, which starts a
//! full three-phase construction on every invocation.
//!
//! What an adapter shares — the inner service or factory paired with the
//! transform — is driver-owned data, registered once in a
//! [`SharedState`] slot. An adapter itself is only the handle of that slot,
//! so duplicating an adapter shares the underlying pair, exactly as the
//! construction protocol requires.

use vstd::prelude::*;

use crate::machine::ApplyConfigServiceFactoryResponse;
use crate::shared::AccessFault;
use crate::shared::SharedState;

verus! {

/// The immediate adapter: bridges a configuration value into a single,
/// synchronous invocation of the transform on an already-ready inner
/// service. No readiness wait is performed — the caller guarantees the inner
/// service is ready.
///
/// Duplication (`clone`) shares the same underlying service and transform:
/// both copies name the same slot.
#[derive(Clone, Copy, Debug, PartialEq, Eq)]
pub struct ApplyConfigService {
    handle: usize,
}

/// The deferred adapter: wraps an inner factory requiring no configuration,
/// paired with a transform. Each invocation returns a fresh
/// [`ApplyConfigServiceFactoryResponse`] representing the full three-phase
/// construction.
///
/// Duplication (`clone`) shares the same underlying factory and transform:
/// both copies name the same slot.
#[derive(Clone, Copy, Debug, PartialEq, Eq)]
pub struct ApplyConfigServiceFactory {
    handle: usize,
}

/// Wraps an already-ready inner service and a transform — registered
/// together as one driver-owned payload — into an adapter whose construction
/// operation calls the transform synchronously with the configuration.
pub fn apply_cfg<P>(shared: &mut SharedState<P>, service_and_transform: P) -> (r:
    ApplyConfigService)
    ensures
        final(shared)@ == old(shared)@.push(Some(service_and_transform)),
        r.handle() == old(shared)@.len(),
{
    let handle = shared.register(service_and_transform);
    ApplyConfigService { handle: handle }
}

/// Wraps an inner factory requiring no configuration and a transform —
/// registered together as one driver-owned payload — into an adapter whose
/// construction operation starts a three-phase construction.
pub fn apply_cfg_factory<P>(shared: &mut SharedState<P>, factory_and_transform: P) -> (r:
    ApplyConfigServiceFactory)
    ensures
        final(shared)@ == old(shared)@.push(Some(factory_and_transform)),
        r.handle() == old(shared)@.len(),
{
    let handle = shared.register(factory_and_transform);
    ApplyConfigServiceFactory { handle: handle }
}

impl ApplyConfigService {
    /// The handle of the slot holding the shared service and transform.
    pub closed spec fn handle(self) -> usize {
        self.handle
    }

    /// The slot handle, for the driver's own bookkeeping.
    pub fn slot_handle(&self) -> (h: usize)
        ensures
            h == self.handle(),
    {
        self.handle
    }

    /// Begins one construction: exclusively borrows the shared pair and
    /// hands it out, with the configuration, for the driver's single
    /// synchronous call of the transform. Two overlapping constructions on
    /// duplicates sharing one slot fail fast with a borrow conflict rather
    /// than corrupting the pair: the second call returns the fault and
    /// leaves the registry exactly as it was.
    ///
    /// The driver must return the pair through
    /// [`ApplyConfigService::construction_finished`] once the transform has
    /// produced its future.
    pub fn new_service<C, P>(&self, shared: &mut SharedState<P>, cfg: C) -> (r: Result<
        (C, P),
        AccessFault,
    >)
        requires
            self.handle() < old(shared)@.len(),
        ensures
            match r {
                Result::Ok(handed) => handed.0 == cfg
                    && old(shared)@[self.handle() as int] == Some(handed.1)
                    && final(shared)@ == old(shared)@.update(self.handle() as int, None::<P>),
                Result::Err(_) => old(shared)@[self.handle() as int] is None
                    && final(shared)@ == old(shared)@,
            },
    {
        match shared.try_acquire(self.handle) {
            Ok(p) => Ok((cfg, p)),
            Err(fault) => Err(fault),
        }
    }

    /// Returns the shared pair after the transform's synchronous call,
    /// ending the exclusive borrow taken by
    /// [`ApplyConfigService::new_service`].
    pub fn construction_finished<P>(&self, shared: &mut SharedState<P>, payload: P)
        requires
            self.handle() < old(shared)@.len(),
            old(shared)@[self.handle() as int] is None,
        ensures
            final(shared)@ == old(shared)@.update(self.handle() as int, Some(payload)),
    {
        shared.release(self.handle, payload);
    }
}

impl ApplyConfigServiceFactory {
    /// The handle of the slot holding the shared factory and transform.
    pub closed spec fn handle(self) -> usize {
        self.handle
    }

    /// The slot handle, for the driver's own bookkeeping.
    pub fn slot_handle(&self) -> (h: usize)
        ensures
            h == self.handle(),
    {
        self.handle
    }

    /// Begins one three-phase construction for the configuration value. The
    /// response is returned immediately, in its first phase, and shared
    /// state is not touched until the response is driven.
    ///
    /// Each invocation owns one fresh construction: the inner factory is
    /// driven once per response, never cached across invocations.
    pub fn new_service<C, S>(&self, cfg: C) -> (r: ApplyConfigServiceFactoryResponse<C, S>)
        ensures
            r.config() == Some(cfg),
            r.phase() is AwaitInnerConstruction,
            r.handle() == self.handle(),
            r.wf(),
    {
        ApplyConfigServiceFactoryResponse::begin(cfg, self.handle)
    }
}

} // verus!
