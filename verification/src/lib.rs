//! On-chain coordinator for off-chain AI-model inference work.
//!
//! The contract accepts task submissions from an attestation center, parks
//! each one on a host-managed suspension point, publishes the suspension's
//! correlation token through an event so an off-chain worker can answer it,
//! and finalizes each request with exactly one terminal value: the worker's
//! answer, or a timeout. A secondary path maps model names to operator
//! accounts and instructs the host to pay a reward when a registered model
//! completed a task.

pub mod account;
pub mod codec;
pub mod contract;
pub mod protocol;
pub mod registry;
