//! The construction state machine.
//!
//! One outer invocation of the deferred adapter creates one
//! [`ApplyConfigServiceFactoryResponse`]: the suspend/resume engine that
//! drives three ordered phases — inner construction, inner readiness,
//! transform application — to completion or failure. The machine owns every
//! decision; the driver performs the underlying asynchronous work and
//! reports each observation as an [`Event`]. The transition relation is
//! written down once, as the specification function [`step`], and the
//! executable [`ApplyConfigServiceFactoryResponse::poll`] is proved to
//! follow it exactly.

use vstd::prelude::*;
use vstd::pervasive::unreached;

use crate::error::AdapterError;
use crate::shared::SharedState;

verus! {

/// The phase a construction is in.
///
/// Phases are strictly ordered and never repeat: a construction moves from
/// `AwaitInnerConstruction` through `AwaitInnerReadiness` (holding the built
/// inner service), then — for the short interval during which the driver
/// holds the shared payload and invokes the transform — through
/// `InvokingTransform`, into `AwaitTransform`, and finally to `Done`.
/// A failure in any phase moves straight to `Done`.
pub enum Phase<S> {
    /// The inner factory's construction is being driven.
    AwaitInnerConstruction,
    /// The built inner service is waiting to report readiness.
    AwaitInnerReadiness(S),
    /// The shared payload has been handed to the driver, which is invoking
    /// the transform with the consumed configuration and the inner service.
    InvokingTransform,
    /// The transform's own construction is being driven.
    AwaitTransform,
    /// The terminal output has been produced; polling again is forbidden.
    Done,
}

/// What the driver observed of the underlying work since the last poll.
///
/// Each variant belongs to one phase (see [`accepts`]): the `Inner` events
/// report on the inner factory's construction, the `Readiness` events on the
/// inner service's readiness check, and the `Transform` events on the future
/// the transform produced.
#[derive(Debug, PartialEq, Eq)]
pub enum Event<S, D, B, R, T> {
    /// The inner construction reported "not yet ready".
    InnerPending,
    /// The inner construction yielded the inner service.
    InnerBuilt(S),
    /// The inner construction failed.
    InnerFailed(B),
    /// The readiness check reported "not yet ready".
    ReadinessPending,
    /// The inner service reported itself ready.
    ReadinessOk,
    /// The inner service reported failure while readiness was awaited.
    ReadinessFailed(R),
    /// The transform's future reported "not yet ready".
    TransformPending,
    /// The transform's future completed with the final service or an error.
    TransformDone(Result<D, AdapterError<B, R, T>>),
}

/// What one poll of the construction decided.
#[derive(Debug, PartialEq, Eq)]
pub enum PollOutcome<C, S, P, D, B, R, T> {
    /// The underlying work is not yet ready; the construction is suspended
    /// until the driver observes progress.
    Pending,
    /// A phase completed: resume polling within the same scheduling turn,
    /// without a voluntary yield.
    Progressed,
    /// Invoke the transform now, with exactly these values: the
    /// configuration (consumed here, exactly once), the ready inner service,
    /// and the exclusively held shared payload. The driver must return the
    /// payload through
    /// [`ApplyConfigServiceFactoryResponse::transform_started`].
    InvokeTransform { cfg: C, service: S, shared: P },
    /// Exclusive access to the shared slot was already outstanding: the
    /// construction fails fast, and the slot is left untouched.
    SharedAccessFault,
    /// The terminal output: the final service, or the first error in phase
    /// order.
    Ready(Result<D, AdapterError<B, R, T>>),
}

/// The complete description of one transition: the configuration, phase and
/// shared slot after the step, and the outcome the step reports.
pub struct Step<C, S, P, D, B, R, T> {
    pub cfg: Option<C>,
    pub phase: Phase<S>,
    pub slot: Option<P>,
    pub outcome: PollOutcome<C, S, P, D, B, R, T>,
}

/// The machine's internal invariant: the configuration is present exactly
/// until the transform is reached, so that it can be consumed there exactly
/// once.
pub open spec fn wf_state<C, S>(cfg: Option<C>, phase: Phase<S>) -> bool {
    cfg is Some <==> (phase is AwaitInnerConstruction || phase is AwaitInnerReadiness)
}

/// Which events a phase accepts. `Done` accepts none: polling after the
/// terminal output has been produced is a precondition violation, not a
/// recoverable error. `InvokingTransform` accepts none either: the driver
/// owes the machine a `transform_started` call first.
pub open spec fn accepts<S, D, B, R, T>(phase: Phase<S>, event: Event<S, D, B, R, T>) -> bool {
    match (phase, event) {
        (Phase::AwaitInnerConstruction, Event::InnerPending) => true,
        (Phase::AwaitInnerConstruction, Event::InnerBuilt(_)) => true,
        (Phase::AwaitInnerConstruction, Event::InnerFailed(_)) => true,
        (Phase::AwaitInnerReadiness(_), Event::ReadinessPending) => true,
        (Phase::AwaitInnerReadiness(_), Event::ReadinessOk) => true,
        (Phase::AwaitInnerReadiness(_), Event::ReadinessFailed(_)) => true,
        (Phase::AwaitTransform, Event::TransformPending) => true,
        (Phase::AwaitTransform, Event::TransformDone(_)) => true,
        _ => false,
    }
}

/// The transition relation of the construction state machine, over the
/// machine's configuration and phase, the shared slot it may acquire, and
/// the observed event.
///
/// A failure in the first two phases short-circuits to `Done` with the error
/// converted into the adapter's unified type, never reaching the transform;
/// a transform failure flows through unchanged. The configuration is taken
/// out exactly at the transition that hands it to the transform.
pub open spec fn step<C, S, P, D, B, R, T>(
    cfg: Option<C>,
    phase: Phase<S>,
    slot: Option<P>,
    event: Event<S, D, B, R, T>,
) -> Step<C, S, P, D, B, R, T> {
    match (phase, event) {
        (Phase::AwaitInnerConstruction, Event::InnerPending) => Step {
            cfg: cfg,
            phase: Phase::AwaitInnerConstruction,
            slot: slot,
            outcome: PollOutcome::Pending,
        },
        (Phase::AwaitInnerConstruction, Event::InnerBuilt(s)) => Step {
            cfg: cfg,
            phase: Phase::AwaitInnerReadiness(s),
            slot: slot,
            outcome: PollOutcome::Progressed,
        },
        (Phase::AwaitInnerConstruction, Event::InnerFailed(b)) => Step {
            cfg: None,
            phase: Phase::Done,
            slot: slot,
            outcome: PollOutcome::Ready(Err(AdapterError::Construction(b))),
        },
        (Phase::AwaitInnerReadiness(s), Event::ReadinessPending) => Step {
            cfg: cfg,
            phase: Phase::AwaitInnerReadiness(s),
            slot: slot,
            outcome: PollOutcome::Pending,
        },
        (Phase::AwaitInnerReadiness(_), Event::ReadinessFailed(r)) => Step {
            cfg: None,
            phase: Phase::Done,
            slot: slot,
            outcome: PollOutcome::Ready(Err(AdapterError::Readiness(r))),
        },
        (Phase::AwaitInnerReadiness(s), Event::ReadinessOk) => match (cfg, slot) {
            (Some(c), Some(p)) => Step {
                cfg: None,
                phase: Phase::InvokingTransform,
                slot: None,
                outcome: PollOutcome::InvokeTransform { cfg: c, service: s, shared: p },
            },
            (Some(_), None) => Step {
                cfg: None,
                phase: Phase::Done,
                slot: None,
                outcome: PollOutcome::SharedAccessFault,
            },
            // excluded by `wf_state`; kept so that the relation is total
            (None, _) => Step {
                cfg: None,
                phase: Phase::Done,
                slot: slot,
                outcome: PollOutcome::SharedAccessFault,
            },
        },
        (Phase::AwaitTransform, Event::TransformPending) => Step {
            cfg: cfg,
            phase: Phase::AwaitTransform,
            slot: slot,
            outcome: PollOutcome::Pending,
        },
        (Phase::AwaitTransform, Event::TransformDone(res)) => Step {
            cfg: cfg,
            phase: Phase::Done,
            slot: slot,
            outcome: PollOutcome::Ready(res),
        },
        // excluded by `accepts`; kept so that the relation is total
        (other, _) => Step {
            cfg: cfg,
            phase: other,
            slot: slot,
            outcome: PollOutcome::Pending,
        },
    }
}

/// The per-invocation construction: the configuration until it is consumed,
/// the handle of the shared slot holding the inner factory and the
/// transform, and the current phase with its payload.
pub struct ApplyConfigServiceFactoryResponse<C, S> {
    cfg: Option<C>,
    handle: usize,
    phase: Phase<S>,
}

impl<C, S> ApplyConfigServiceFactoryResponse<C, S> {
    /// The configuration not yet consumed by the transform.
    pub closed spec fn config(self) -> Option<C> {
        self.cfg
    }

    /// The phase the construction is in.
    pub closed spec fn phase(self) -> Phase<S> {
        self.phase
    }

    /// The handle of the shared slot this construction borrows from.
    pub closed spec fn handle(self) -> usize {
        self.handle
    }

    /// The machine's internal invariant; every constructor establishes it
    /// and every method preserves it.
    pub open spec fn wf(self) -> bool {
        wf_state(self.config(), self.phase())
    }

    /// Begins a construction for one configuration value, against the shared
    /// slot `handle`. Shared state is not touched until the response is
    /// driven.
    pub(crate) fn begin(cfg: C, handle: usize) -> (r: Self)
        ensures
            r.config() == Some(cfg),
            r.phase() is AwaitInnerConstruction,
            r.handle() == handle,
            r.wf(),
    {
        ApplyConfigServiceFactoryResponse {
            cfg: Some(cfg),
            handle: handle,
            phase: Phase::AwaitInnerConstruction,
        }
    }

    /// Whether the construction has produced its terminal output. Polling a
    /// terminated response is forbidden.
    pub fn is_terminal(&self) -> (b: bool)
        ensures
            b == (self.phase() is Done),
    {
        match &self.phase {
            Phase::Done => true,
            _ => false,
        }
    }

    /// Whether the machine is waiting for the driver to report, through
    /// [`ApplyConfigServiceFactoryResponse::transform_started`], that the
    /// transform has been invoked and the shared payload returned.
    pub fn awaits_transform_start(&self) -> (b: bool)
        ensures
            b == (self.phase() is InvokingTransform),
    {
        match &self.phase {
            Phase::InvokingTransform => true,
            _ => false,
        }
    }

    /// Whether the machine is waiting for the inner service to report
    /// readiness.
    pub fn awaits_readiness(&self) -> (b: bool)
        ensures
            b == (self.phase() is AwaitInnerReadiness),
    {
        match &self.phase {
            Phase::AwaitInnerReadiness(_) => true,
            _ => false,
        }
    }

    /// The handle of the shared slot this construction borrows from, for the
    /// driver's own bookkeeping.
    pub fn slot_handle(&self) -> (h: usize)
        ensures
            h == self.handle(),
    {
        self.handle
    }

    /// Exclusive access to the built inner service, for the driver's
    /// readiness check. The service stays where it is: the phase is
    /// unchanged, up to whatever the check wrote through the reference.
    pub fn inner_service_mut(&mut self) -> (s: &mut S)
        requires
            old(self).phase() is AwaitInnerReadiness,
        ensures
            old(self).phase() == Phase::AwaitInnerReadiness(*s),
            final(self).phase() == Phase::AwaitInnerReadiness(*final(s)),
            final(self).config() == old(self).config(),
            final(self).handle() == old(self).handle(),
    {
        match &mut self.phase {
            Phase::AwaitInnerReadiness(s) => s,
            _ => unreached(),
        }
    }

    /// Drives the construction one step on an observed event: the executable
    /// form of [`step`], proved to follow it exactly.
    ///
    /// Completion of a phase advances to the next phase and asks the driver
    /// to resume within the same scheduling turn (`Progressed`); a failure
    /// in the first two phases short-circuits to the terminal output without
    /// the transform ever being invoked; on readiness the configuration is
    /// consumed, exactly once, and handed to the transform together with the
    /// exclusively acquired shared payload; and a conflicting acquisition
    /// fails fast, leaving the shared slot untouched.
    pub fn poll<P, D, B, R, T>(
        &mut self,
        shared: &mut SharedState<P>,
        event: Event<S, D, B, R, T>,
    ) -> (out: PollOutcome<C, S, P, D, B, R, T>)
        requires
            old(self).wf(),
            old(self).handle() < old(shared)@.len(),
            accepts(old(self).phase(), event),
        ensures
            final(self).wf(),
            final(self).handle() == old(self).handle(),
            ({
                let st = step(
                    old(self).config(),
                    old(self).phase(),
                    old(shared)@[old(self).handle() as int],
                    event,
                );
                &&& final(self).config() == st.cfg
                &&& final(self).phase() == st.phase
                &&& final(shared)@ == old(shared)@.update(old(self).handle() as int, st.slot)
                &&& out == st.outcome
            }),
    {
        proof {
            let h = self.handle as int;
            assert(old(shared)@.update(h, old(shared)@[h]) =~= old(shared)@);
        }
        let mut ph = Phase::Done;
        core::mem::swap(&mut ph, &mut self.phase);
        match (ph, event) {
            (Phase::AwaitInnerConstruction, Event::InnerPending) => {
                self.phase = Phase::AwaitInnerConstruction;
                PollOutcome::Pending
            },
            (Phase::AwaitInnerConstruction, Event::InnerBuilt(s)) => {
                self.phase = Phase::AwaitInnerReadiness(s);
                PollOutcome::Progressed
            },
            (Phase::AwaitInnerConstruction, Event::InnerFailed(b)) => {
                self.cfg = None;
                self.phase = Phase::Done;
                PollOutcome::Ready(Err(AdapterError::Construction(b)))
            },
            (Phase::AwaitInnerReadiness(s), Event::ReadinessPending) => {
                self.phase = Phase::AwaitInnerReadiness(s);
                PollOutcome::Pending
            },
            (Phase::AwaitInnerReadiness(_), Event::ReadinessFailed(r)) => {
                self.cfg = None;
                self.phase = Phase::Done;
                PollOutcome::Ready(Err(AdapterError::Readiness(r)))
            },
            (Phase::AwaitInnerReadiness(s), Event::ReadinessOk) => {
                let c = self.cfg.take().unwrap();
                match shared.try_acquire(self.handle) {
                    Ok(p) => {
                        self.phase = Phase::InvokingTransform;
                        PollOutcome::InvokeTransform { cfg: c, service: s, shared: p }
                    },
                    Err(_) => {
                        self.phase = Phase::Done;
                        PollOutcome::SharedAccessFault
                    },
                }
            },
            (Phase::AwaitTransform, Event::TransformPending) => {
                self.phase = Phase::AwaitTransform;
                PollOutcome::Pending
            },
            (Phase::AwaitTransform, Event::TransformDone(res)) => {
                self.phase = Phase::Done;
                PollOutcome::Ready(res)
            },
            _ => unreached(),
        }
    }

    /// Records that the driver has invoked the transform and hands the
    /// shared payload back, ending the exclusive access taken by the poll
    /// that reported `InvokeTransform`.
    pub fn transform_started<P>(&mut self, shared: &mut SharedState<P>, payload: P)
        requires
            old(self).wf(),
            old(self).phase() is InvokingTransform,
            old(self).handle() < old(shared)@.len(),
            old(shared)@[old(self).handle() as int] is None,
        ensures
            final(self).wf(),
            final(self).handle() == old(self).handle(),
            final(self).config() is None,
            final(self).phase() is AwaitTransform,
            final(shared)@ == old(shared)@.update(old(self).handle() as int, Some(payload)),
    {
        self.phase = Phase::AwaitTransform;
        shared.release(self.handle, payload);
    }
}

} // verus!
