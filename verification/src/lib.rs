//! Adaptive top-k identification of language-model variants.
//!
//! The crate holds the decision core of a sequential evaluation: confidence
//! bounds over bounded means ([`confidence`]), the lifecycle of variants and
//! evaluators ([`tracker`]), the scoring that ranks variants ([`scorer`],
//! [`ranking`]), the global stopping rule ([`stopping`]) and the batched
//! sampling protocol ([`sampling`], [`output`]). Around it stand the parameters
//! and their validation ([`params`]), the tool that hands them over ([`tool`]),
//! the embedded client ([`client`]), the waiting for a persisted task
//! ([`polling`]) and the KIE model provider ([`kie`]).
//!
//! All quantities in `[0, 1]` are carried as millionths in unsigned integers,
//! so every rule is decided by exact integer arithmetic. Floating point, the
//! network and the database stay with the caller, who reports what happened
//! and is told what to do next.

pub mod client;
pub mod confidence;
pub mod counting;
pub mod fraction;
pub mod kie;
pub mod names;
pub mod output;
pub mod params;
pub mod polling;
pub mod ranking;
pub mod sampling;
pub mod scorer;
pub mod stopping;
pub mod text;
pub mod tool;
pub mod tracker;
