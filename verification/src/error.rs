//! The adapter's unified error type.

use vstd::prelude::*;

verus! {

/// The error with which a construction terminates, classified by the phase
/// that produced it.
///
/// The adapter declares this one unified type: an inner-factory failure and
/// a readiness failure are converted into it by the two conversion
/// constructors the variants form, while a transform failure — the transform
/// already yields the unified type — flows through unchanged. The first
/// error in phase order wins; no phase is retried and nothing is aggregated.
#[derive(Clone, Copy, Debug, PartialEq, Eq)]
pub enum AdapterError<B, R, T> {
    /// The inner factory failed to build the inner service.
    Construction(B),
    /// The inner service reported failure while its readiness was awaited.
    Readiness(R),
    /// The user-supplied transform failed.
    Transform(T),
}

} // verus!
