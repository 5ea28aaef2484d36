//! The laws of the construction protocol.
//!
//! A driver's whole interaction with one construction is a sequence of
//! operations: polls, each reporting an observed event, and hand-backs of
//! the shared payload after invoking the transform. The specification
//! function [`run`] folds the transition relation [`step`] over such a
//! sequence, recording whether every operation met its precondition, how
//! often the transform was invoked, and which terminal output (if any) was
//! produced. The proof functions here state the protocol's guarantees over
//! entire traces: independence of concurrent invocations, preservation of
//! the inner service under an identity transform, failure short-circuiting,
//! non-resolution under perpetual unreadiness, exactly-once invocation of
//! the transform, and fail-fast handling of conflicting shared access.

use vstd::prelude::*;

use crate::error::AdapterError;
use crate::machine::accepts;
use crate::machine::step;
use crate::machine::wf_state;
use crate::machine::Event;
use crate::machine::Phase;
use crate::machine::PollOutcome;

verus! {

/// One operation a driver performs on a construction: a poll with the event
/// it observed, or the hand-back of the shared payload after invoking the
/// transform.
pub enum DriverOp<S, P, D, B, R, T> {
    Poll(Event<S, D, B, R, T>),
    StartTransform(P),
}

/// What a whole trace of driver operations amounts to: whether every
/// operation met its precondition, the machine state and slot afterwards,
/// how often the transform was invoked, and the terminal output, if one was
/// produced.
pub struct RunResult<C, S, P, D, B, R, T> {
    pub ok: bool,
    pub cfg: Option<C>,
    pub phase: Phase<S>,
    pub slot: Option<P>,
    pub invocations: nat,
    pub output: Option<Result<D, AdapterError<B, R, T>>>,
}

/// How often one outcome invokes the transform.
pub open spec fn invoke_count<C, S, P, D, B, R, T>(out: PollOutcome<C, S, P, D, B, R, T>) -> nat {
    if out is InvokeTransform {
        1nat
    } else {
        0nat
    }
}

/// The terminal output an outcome carries, if any.
pub open spec fn ready_value<C, S, P, D, B, R, T>(out: PollOutcome<C, S, P, D, B, R, T>) -> Option<
    Result<D, AdapterError<B, R, T>>,
> {
    match out {
        PollOutcome::Ready(res) => Some(res),
        _ => None,
    }
}

/// Folds the transition relation over a trace of driver operations.
///
/// A poll is valid only for an event the current phase accepts — in
/// particular, no poll is valid once the machine is done, and none while the
/// driver owes a `StartTransform`. A `StartTransform` is valid only while
/// the transform is being invoked and the slot is empty. An invalid
/// operation makes the whole run invalid.
pub open spec fn run<C, S, P, D, B, R, T>(
    cfg: Option<C>,
    phase: Phase<S>,
    slot: Option<P>,
    ops: Seq<DriverOp<S, P, D, B, R, T>>,
) -> RunResult<C, S, P, D, B, R, T>
    decreases ops.len(),
{
    if ops.len() == 0 {
        RunResult { ok: true, cfg: cfg, phase: phase, slot: slot, invocations: 0nat, output: None }
    } else {
        match ops.first() {
            DriverOp::Poll(event) => {
                if accepts(phase, event) {
                    let st = step(cfg, phase, slot, event);
                    let rest = run(st.cfg, st.phase, st.slot, ops.drop_first());
                    RunResult {
                        ok: rest.ok,
                        cfg: rest.cfg,
                        phase: rest.phase,
                        slot: rest.slot,
                        invocations: invoke_count(st.outcome) + rest.invocations,
                        output: if st.outcome is Ready {
                            ready_value(st.outcome)
                        } else {
                            rest.output
                        },
                    }
                } else {
                    RunResult {
                        ok: false,
                        cfg: cfg,
                        phase: phase,
                        slot: slot,
                        invocations: 0nat,
                        output: None,
                    }
                }
            },
            DriverOp::StartTransform(p) => {
                if phase is InvokingTransform && slot is None {
                    run(cfg, Phase::AwaitTransform, Some(p), ops.drop_first())
                } else {
                    RunResult {
                        ok: false,
                        cfg: cfg,
                        phase: phase,
                        slot: slot,
                        invocations: 0nat,
                        output: None,
                    }
                }
            },
        }
    }
}

/// Every transition preserves the machine's invariant: the configuration is
/// present exactly until the transform is reached, where it is consumed,
/// exactly once.
pub proof fn lemma_step_preserves_wf<C, S, P, D, B, R, T>(
    cfg: Option<C>,
    phase: Phase<S>,
    slot: Option<P>,
    event: Event<S, D, B, R, T>,
)
    requires
        wf_state(cfg, phase),
    ensures
        ({
            let st = step(cfg, phase, slot, event);
            wf_state(st.cfg, st.phase)
        }),
{
}

/// A terminated construction accepts no further operation: a valid trace
/// from the terminal phase is empty. In particular, polling again after the
/// terminal output has been produced cannot invoke the transform again — it
/// is a precondition violation.
pub proof fn lemma_no_ops_after_done<C, S, P, D, B, R, T>(
    cfg: Option<C>,
    slot: Option<P>,
    ops: Seq<DriverOp<S, P, D, B, R, T>>,
)
    ensures
        ({
            let r = run(cfg, Phase::Done, slot, ops);
            r.ok ==> (ops.len() == 0 && r.invocations == 0 && r.output is None)
        }),
{
}

/// Along any valid trace the machine's invariant holds: the configuration is
/// present exactly until the transform is reached — where it is consumed,
/// exactly once — and absent in every later phase, so no completed or failed
/// construction retains it.
pub proof fn lemma_run_preserves_wf<C, S, P, D, B, R, T>(
    cfg: Option<C>,
    phase: Phase<S>,
    slot: Option<P>,
    ops: Seq<DriverOp<S, P, D, B, R, T>>,
)
    requires
        wf_state(cfg, phase),
    ensures
        ({
            let r = run(cfg, phase, slot, ops);
            r.ok ==> wf_state(r.cfg, r.phase)
        }),
    decreases ops.len(),
{
    if ops.len() > 0 {
        match ops.first() {
            DriverOp::Poll(event) => {
                if accepts(phase, event) {
                    let st = step(cfg, phase, slot, event);
                    lemma_step_preserves_wf(cfg, phase, slot, event);
                    lemma_run_preserves_wf(st.cfg, st.phase, st.slot, ops.drop_first());
                }
            },
            DriverOp::StartTransform(p) => {
                if phase is InvokingTransform && slot is None {
                    lemma_run_preserves_wf(cfg, Phase::AwaitTransform, Some(p), ops.drop_first());
                }
            },
        }
    }
}

/// How many transform invocations a phase still allows: one before the
/// readiness transition, none after.
pub open spec fn invoke_allowance<S>(phase: Phase<S>) -> nat {
    match phase {
        Phase::AwaitInnerConstruction => 1nat,
        Phase::AwaitInnerReadiness(_) => 1nat,
        _ => 0nat,
    }
}

/// Along any valid trace the transform is invoked at most once — and a
/// trace that yields a final service has invoked it exactly once.
pub proof fn lemma_run_invocation_discipline<C, S, P, D, B, R, T>(
    cfg: Option<C>,
    phase: Phase<S>,
    slot: Option<P>,
    ops: Seq<DriverOp<S, P, D, B, R, T>>,
)
    requires
        wf_state(cfg, phase),
    ensures
        ({
            let r = run(cfg, phase, slot, ops);
            r.ok ==> {
                &&& r.invocations <= invoke_allowance(phase)
                &&& (r.output matches Some(Result::Ok(_)) ==> r.invocations == invoke_allowance(
                    phase,
                ))
            }
        }),
    decreases ops.len(),
{
    if ops.len() > 0 {
        match ops.first() {
            DriverOp::Poll(event) => {
                if accepts(phase, event) {
                    let st = step(cfg, phase, slot, event);
                    lemma_step_preserves_wf(cfg, phase, slot, event);
                    lemma_run_invocation_discipline(st.cfg, st.phase, st.slot, ops.drop_first());
                    if st.phase is Done {
                        lemma_no_ops_after_done(st.cfg, st.slot, ops.drop_first());
                    }
                }
            },
            DriverOp::StartTransform(p) => {
                if phase is InvokingTransform && slot is None {
                    lemma_run_invocation_discipline(
                        cfg,
                        Phase::AwaitTransform,
                        Some(p),
                        ops.drop_first(),
                    );
                }
            },
        }
    }
}

/// For any successful construction — any valid trace from a fresh response
/// that yields a final service — the transform is invoked exactly once.
pub proof fn lemma_successful_construction_invokes_exactly_once<C, S, P, D, B, R, T>(
    cfg: C,
    slot: Option<P>,
    ops: Seq<DriverOp<S, P, D, B, R, T>>,
)
    requires
        ({
            let r = run(Some(cfg), Phase::AwaitInnerConstruction, slot, ops);
            r.ok && r.output matches Some(Result::Ok(_))
        }),
    ensures
        run(Some(cfg), Phase::AwaitInnerConstruction, slot, ops).invocations == 1,
{
    lemma_run_invocation_discipline(Some(cfg), Phase::AwaitInnerConstruction, slot, ops);
}

/// Along any valid trace from a fresh response the transform is never
/// invoked twice.
pub proof fn lemma_transform_invoked_at_most_once<C, S, P, D, B, R, T>(
    cfg: C,
    slot: Option<P>,
    ops: Seq<DriverOp<S, P, D, B, R, T>>,
)
    ensures
        ({
            let r = run(Some(cfg), Phase::AwaitInnerConstruction, slot, ops);
            r.ok ==> r.invocations <= 1
        }),
{
    lemma_run_invocation_discipline(Some(cfg), Phase::AwaitInnerConstruction, slot, ops);
}

/// If inner construction fails, the terminal result is that failure
/// converted into the adapter's unified error type, every later phase is
/// skipped, and the transform is never invoked: however many pending polls
/// preceded the failure, the invocation count of the whole trace is zero.
pub proof fn lemma_construction_failure_short_circuits<C, S, P, D, B, R, T>(
    cfg: Option<C>,
    slot: Option<P>,
    b: B,
    pending: Seq<DriverOp<S, P, D, B, R, T>>,
)
    requires
        wf_state(cfg, Phase::AwaitInnerConstruction::<S>),
        forall|i: int|
            0 <= i < pending.len() ==> pending[i] == DriverOp::<S, P, D, B, R, T>::Poll(
                Event::InnerPending,
            ),
    ensures
        ({
            let ops = pending.push(DriverOp::Poll(Event::InnerFailed(b)));
            let r = run(cfg, Phase::AwaitInnerConstruction, slot, ops);
            &&& r.ok
            &&& r.invocations == 0
            &&& r.output == Some(Result::<D, AdapterError<B, R, T>>::Err(
                AdapterError::Construction(b),
            ))
            &&& r.phase is Done
            &&& r.slot == slot
        }),
    decreases pending.len(),
{
    let ops = pending.push(DriverOp::Poll(Event::InnerFailed(b)));
    if pending.len() == 0 {
        assert(ops.first() == DriverOp::<S, P, D, B, R, T>::Poll(Event::InnerFailed(b)));
        assert(ops.drop_first() =~= Seq::<DriverOp<S, P, D, B, R, T>>::empty());
        let st = step(cfg, Phase::AwaitInnerConstruction::<S>, slot, Event::<
            S,
            D,
            B,
            R,
            T,
        >::InnerFailed(b));
        assert(run(st.cfg, st.phase, st.slot, ops.drop_first()).ok);
    } else {
        assert(ops.first() == DriverOp::<S, P, D, B, R, T>::Poll(Event::InnerPending));
        assert(ops.drop_first() =~= pending.drop_first().push(
            DriverOp::Poll(Event::InnerFailed(b)),
        ));
        assert forall|i: int| 0 <= i < pending.drop_first().len() implies pending.drop_first()[i]
            == DriverOp::<S, P, D, B, R, T>::Poll(Event::InnerPending) by {
            assert(pending.drop_first()[i] == pending[i + 1]);
        }
        lemma_construction_failure_short_circuits(cfg, slot, b, pending.drop_first());
    }
}

/// A readiness failure short-circuits exactly as a construction failure
/// does: the machine terminates at once with the failure converted into the
/// adapter's unified error type, and the transform is not invoked — the
/// first error in phase order wins.
pub proof fn lemma_readiness_failure_short_circuits<C, S, P, D, B, R, T>(
    cfg: Option<C>,
    s: S,
    slot: Option<P>,
    r: R,
)
    ensures
        ({
            let st = step(cfg, Phase::AwaitInnerReadiness(s), slot, Event::<
                S,
                D,
                B,
                R,
                T,
            >::ReadinessFailed(r));
            &&& st.outcome == PollOutcome::<C, S, P, D, B, R, T>::Ready(Err(
                AdapterError::Readiness(r),
            ))
            &&& !(st.outcome is InvokeTransform)
            &&& st.phase is Done
            &&& st.slot == slot
        }),
{
}

/// A transform failure flows through unchanged: whatever result the
/// transform's future completes with — the final service or an error already
/// of the adapter's unified type — is the construction's terminal output,
/// verbatim.
pub proof fn lemma_transform_result_flows_unchanged<C, S, P, D, B, R, T>(
    cfg: Option<C>,
    slot: Option<P>,
    res: Result<D, AdapterError<B, R, T>>,
)
    ensures
        ({
            let st = step(cfg, Phase::AwaitTransform::<S>, slot, Event::<
                S,
                D,
                B,
                R,
                T,
            >::TransformDone(res));
            &&& st.outcome == PollOutcome::<C, S, P, D, B, R, T>::Ready(res)
            &&& st.phase is Done
            &&& st.slot == slot
        }),
{
}

/// If the inner service's readiness check never succeeds, the construction
/// never resolves and the transform is never invoked: after any number of
/// pending readiness polls the machine still awaits readiness, holds the
/// configuration unconsumed, and has produced no output.
pub proof fn lemma_unready_service_never_resolves<C, S, P, D, B, R, T>(
    cfg: Option<C>,
    s: S,
    slot: Option<P>,
    ops: Seq<DriverOp<S, P, D, B, R, T>>,
)
    requires
        forall|i: int|
            0 <= i < ops.len() ==> ops[i] == DriverOp::<S, P, D, B, R, T>::Poll(
                Event::ReadinessPending,
            ),
    ensures
        ({
            let r = run(cfg, Phase::AwaitInnerReadiness(s), slot, ops);
            &&& r.ok
            &&& r.phase == Phase::<S>::AwaitInnerReadiness(s)
            &&& r.cfg == cfg
            &&& r.slot == slot
            &&& r.invocations == 0
            &&& r.output is None
        }),
    decreases ops.len(),
{
    if ops.len() > 0 {
        assert(ops.first() == DriverOp::<S, P, D, B, R, T>::Poll(Event::ReadinessPending));
        lemma_unready_service_never_resolves(cfg, s, slot, ops.drop_first());
    }
}

/// A construction's behaviour depends on the shared slot only through its
/// occupancy, never through the stored payload. Whatever mutation of the
/// shared factory/transform pair another invocation left behind, a whole
/// run's validity, phases, configuration, invocation count and output are
/// the same.
pub proof fn lemma_result_independent_of_shared_payload<C, S, P, D, B, R, T>(
    cfg: Option<C>,
    phase: Phase<S>,
    slot1: Option<P>,
    slot2: Option<P>,
    ops: Seq<DriverOp<S, P, D, B, R, T>>,
)
    requires
        slot1 is Some <==> slot2 is Some,
    ensures
        ({
            let r1 = run(cfg, phase, slot1, ops);
            let r2 = run(cfg, phase, slot2, ops);
            &&& r1.ok == r2.ok
            &&& r1.cfg == r2.cfg
            &&& r1.phase == r2.phase
            &&& (r1.slot is Some <==> r2.slot is Some)
            &&& r1.invocations == r2.invocations
            &&& r1.output == r2.output
        }),
    decreases ops.len(),
{
    if ops.len() > 0 {
        match ops.first() {
            DriverOp::Poll(event) => {
                if accepts(phase, event) {
                    let st1 = step(cfg, phase, slot1, event);
                    let st2 = step(cfg, phase, slot2, event);
                    lemma_result_independent_of_shared_payload(
                        st1.cfg,
                        st1.phase,
                        st1.slot,
                        st2.slot,
                        ops.drop_first(),
                    );
                }
            },
            DriverOp::StartTransform(p) => {
                if phase is InvokingTransform && slot1 is None {
                    lemma_result_independent_of_shared_payload(
                        cfg,
                        Phase::AwaitTransform,
                        Some(p),
                        Some(p),
                        ops.drop_first(),
                    );
                }
            },
        }
    }
}

/// Along any valid single-construction trace the shared slot is empty
/// exactly while the transform is being invoked — so a construction that has
/// fully completed leaves the slot occupied, as it found it.
pub proof fn lemma_completed_construction_restores_occupancy<C, S, P, D, B, R, T>(
    cfg: Option<C>,
    phase: Phase<S>,
    slot: Option<P>,
    ops: Seq<DriverOp<S, P, D, B, R, T>>,
)
    requires
        phase is InvokingTransform <==> slot is None,
    ensures
        ({
            let r = run(cfg, phase, slot, ops);
            r.ok ==> (r.phase is InvokingTransform <==> r.slot is None)
        }),
    decreases ops.len(),
{
    if ops.len() > 0 {
        match ops.first() {
            DriverOp::Poll(event) => {
                if accepts(phase, event) {
                    let st = step(cfg, phase, slot, event);
                    lemma_completed_construction_restores_occupancy(
                        st.cfg,
                        st.phase,
                        st.slot,
                        ops.drop_first(),
                    );
                }
            },
            DriverOp::StartTransform(p) => {
                if phase is InvokingTransform && slot is None {
                    lemma_completed_construction_restores_occupancy(
                        cfg,
                        Phase::AwaitTransform,
                        Some(p),
                        ops.drop_first(),
                    );
                }
            },
        }
    }
}

/// For any two configurations submitted to the same factory, one
/// construction fully completing must not influence the result of the
/// other: a completed construction leaves the slot occupied (by the possibly
/// mutated pair, the one explicitly shared thing), and the other's entire
/// run — validity, phases, invocation count and output — is the same
/// whatever payload the slot holds when it starts.
pub proof fn lemma_no_cross_invocation_interference<C, S, P, D, B, R, T>(
    cfg: C,
    p1: P,
    p2: P,
    ops: Seq<DriverOp<S, P, D, B, R, T>>,
)
    ensures
        ({
            let r1 = run(Some(cfg), Phase::AwaitInnerConstruction, Some(p1), ops);
            let r2 = run(Some(cfg), Phase::AwaitInnerConstruction, Some(p2), ops);
            &&& r1.ok == r2.ok
            &&& r1.cfg == r2.cfg
            &&& r1.phase == r2.phase
            &&& r1.invocations == r2.invocations
            &&& r1.output == r2.output
        }),
{
    lemma_result_independent_of_shared_payload(
        Some(cfg),
        Phase::AwaitInnerConstruction,
        Some(p1),
        Some(p2),
        ops,
    );
}

/// If the inner factory produces an already-ready inner service — its
/// construction completes at once and the first readiness check succeeds —
/// and the transform is an identity success, handing back as final service
/// the very inner service it was given, then the adapter's output is that
/// inner service itself: under equivalent requests the final service
/// behaves as the inner service does.
pub proof fn lemma_identity_transform_yields_inner_service<C, S, P, B, R, T>(
    cfg: C,
    s: S,
    p: P,
    handed_back: P,
)
    ensures
        ({
            let ops: Seq<DriverOp<S, P, S, B, R, T>> = seq![
                DriverOp::Poll(Event::InnerBuilt(s)),
                DriverOp::Poll(Event::ReadinessOk),
                DriverOp::StartTransform(handed_back),
                DriverOp::Poll(Event::TransformDone(Ok(s))),
            ];
            let r = run(Some(cfg), Phase::AwaitInnerConstruction, Some(p), ops);
            &&& r.ok
            &&& r.output == Some(Result::<S, AdapterError<B, R, T>>::Ok(s))
            &&& r.invocations == 1
            &&& r.phase is Done
        }),
        step(
            Some(cfg),
            Phase::AwaitInnerReadiness(s),
            Some(p),
            Event::<S, S, B, R, T>::ReadinessOk,
        ).outcome == (PollOutcome::<C, S, P, S, B, R, T>::InvokeTransform {
            cfg: cfg,
            service: s,
            shared: p,
        }),
{
    let ops: Seq<DriverOp<S, P, S, B, R, T>> = seq![
        DriverOp::Poll(Event::InnerBuilt(s)),
        DriverOp::Poll(Event::ReadinessOk),
        DriverOp::StartTransform(handed_back),
        DriverOp::Poll(Event::TransformDone(Ok(s))),
    ];
    assert(ops.len() == 4);
    let ops1 = ops.drop_first();
    let ops2 = ops1.drop_first();
    let ops3 = ops2.drop_first();
    let ops4 = ops3.drop_first();
    assert(ops.first() == DriverOp::<S, P, S, B, R, T>::Poll(Event::InnerBuilt(s)));
    assert(ops1.first() == DriverOp::<S, P, S, B, R, T>::Poll(Event::ReadinessOk));
    assert(ops2.first() == DriverOp::<S, P, S, B, R, T>::StartTransform(handed_back));
    assert(ops3.first() == DriverOp::<S, P, S, B, R, T>::Poll(
        Event::TransformDone(Ok(s)),
    ));
    assert(ops4 =~= Seq::<DriverOp<S, P, S, B, R, T>>::empty());
    let st1 = step(Some(cfg), Phase::AwaitInnerConstruction::<S>, Some(p), Event::<
        S,
        S,
        B,
        R,
        T,
    >::InnerBuilt(s));
    let st2 = step(st1.cfg, st1.phase, st1.slot, Event::<S, S, B, R, T>::ReadinessOk);
    let st3 = step(st2.cfg, Phase::AwaitTransform::<S>, Some(handed_back), Event::<
        S,
        S,
        B,
        R,
        T,
    >::TransformDone(Ok(s)));
    assert(run(st3.cfg, st3.phase, st3.slot, ops4).ok);
    assert(run(st2.cfg, Phase::AwaitTransform::<S>, Some(handed_back), ops3).ok);
    assert(run(st2.cfg, st2.phase, st2.slot, ops2).ok);
    assert(run(st1.cfg, st1.phase, st1.slot, ops1).ok);
}

/// A second construction attempt that needs exclusive access to the shared
/// slot while a first attempt holds it fails fast and deterministically: the
/// second construction terminates with the detectable fault, the empty slot
/// is left untouched, and when the first attempt hands the pair back, the
/// slot holds exactly that pair — the stored factory and transform are never
/// silently corrupted.
pub proof fn lemma_conflicting_access_fails_fast<C, S, P, D, B, R, T>(
    cfg: Option<C>,
    s: S,
    event: Event<S, D, B, R, T>,
)
    requires
        cfg is Some,
        event is ReadinessOk,
    ensures
        ({
            let st = step(cfg, Phase::AwaitInnerReadiness(s), None::<P>, event);
            &&& st.outcome is SharedAccessFault
            &&& !(st.outcome is InvokeTransform)
            &&& st.phase is Done
            &&& st.slot is None
        }),
{
}

/// Scenario of the conflict: the first construction holds the shared pair
/// (its poll reported `InvokeTransform`); a second construction reaching
/// readiness meanwhile faults deterministically without touching the slot;
/// and the first construction's hand-back afterwards restores the very
/// payload it produced. Nothing the second attempt did reaches the pair.
pub proof fn lemma_interleaved_attempt_never_corrupts<C, S, P, D, B, R, T>(
    cfg1: Option<C>,
    cfg2: Option<C>,
    s1: S,
    s2: S,
    p: P,
    handed_back: P,
)
    requires
        cfg1 is Some,
        cfg2 is Some,
    ensures
        ({
            // the first construction acquires the pair
            let st1 = step(
                cfg1,
                Phase::AwaitInnerReadiness(s1),
                Some(p),
                Event::<S, D, B, R, T>::ReadinessOk,
            );
            // the second attempt polls readiness while the slot is empty
            let st2 = step(
                cfg2,
                Phase::AwaitInnerReadiness(s2),
                st1.slot,
                Event::<S, D, B, R, T>::ReadinessOk,
            );
            &&& st1.outcome == (PollOutcome::<C, S, P, D, B, R, T>::InvokeTransform {
                cfg: cfg1->Some_0,
                service: s1,
                shared: p,
            })
            &&& st2.outcome is SharedAccessFault
            &&& st2.slot is None
            // the first construction's hand-back restores its payload intact
            &&& run(
                st1.cfg,
                st1.phase,
                st2.slot,
                seq![DriverOp::<S, P, D, B, R, T>::StartTransform(handed_back)],
            ).slot == Some(handed_back)
        }),
{
    let ops = seq![DriverOp::<S, P, D, B, R, T>::StartTransform(handed_back)];
    assert(ops.len() == 1);
    assert(ops.first() == DriverOp::<S, P, D, B, R, T>::StartTransform(handed_back));
    assert(ops.drop_first() =~= Seq::<DriverOp<S, P, D, B, R, T>>::empty());
    let st1 = step(cfg1, Phase::AwaitInnerReadiness(s1), Some(p), Event::<
        S,
        D,
        B,
        R,
        T,
    >::ReadinessOk);
    assert(run(st1.cfg, Phase::AwaitTransform::<S>, Some(handed_back), ops.drop_first()).ok);
}

} // verus!
