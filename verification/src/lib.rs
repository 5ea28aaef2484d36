//! A configurable service-factory adapter.
//!
//! A building block for layered request-handling systems in which a concrete
//! request handler (a *service*) must be constructed at runtime from a
//! configuration value and a previously built, or buildable, inner handler.
//! A caller injects per-invocation configuration into the construction of a
//! final handler without the handler's own abstraction knowing about
//! configuration at all.
//!
//! The heart of the crate is the three-phase construction protocol: build an
//! inner handler from an inner factory, wait until the inner handler reports
//! readiness, then invoke a user-supplied transform that consumes the
//! configuration and the ready inner handler to produce the final handler.
//! The protocol is an explicit state machine
//! ([`machine::ApplyConfigServiceFactoryResponse`]) driven by events: a
//! driver performs the underlying asynchronous work — polling the inner
//! construction, checking readiness, running the transform — and reports
//! each observation, while the machine makes every decision: phase ordering,
//! exactly-once consumption of the configuration, failure short-circuiting,
//! fail-fast handling of conflicting shared access. The guarantees over
//! whole driver traces are stated and proved in [`laws`].
//!
//! The inner factory (or, for the immediate variant, the ready inner
//! service) and the transform are driver-owned data, registered together in
//! a [`shared::SharedState`] slot: a single-owner, exclusively-borrowable
//! holder shared between an adapter, its duplicates, and any in-flight
//! construction. Taking the slot while another access is outstanding fails
//! fast with a detectable fault instead of silently interleaving.

pub mod adapter;
pub mod error;
pub mod laws;
pub mod machine;
pub mod shared;

pub use adapter::apply_cfg;
pub use adapter::apply_cfg_factory;
pub use adapter::ApplyConfigService;
pub use adapter::ApplyConfigServiceFactory;
pub use error::AdapterError;
pub use machine::ApplyConfigServiceFactoryResponse;
pub use machine::Event;
pub use machine::Phase;
pub use machine::PollOutcome;
pub use shared::AccessFault;
pub use shared::SharedState;
