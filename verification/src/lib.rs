//! Verification-and-admission pipeline of a signed-telemetry ingestion
//! gateway.
//!
//! Submitting clients attach an integrity proof to each event: an Ed25519
//! signature and a SHA3-256 digest, both over a deterministic canonical
//! byte form of a fixed subset of the event's fields. The library builds
//! that canonical form, checks the digest and the signature, enforces a
//! per-agent admission quota, decides single and batch admission with
//! partial-failure accounting, and models the durable publisher's
//! connection lifecycle. The boundary around it performs the actual I/O —
//! HTTP, the broker connection, publishes — and feeds outcomes back.

pub mod canonical;
pub mod crypto;
pub mod errors;
pub mod event;
pub mod json;
pub mod laws;
pub mod limiter;
pub mod pipeline;
pub mod publisher;
pub mod validate;
