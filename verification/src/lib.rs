//! Authentication and authorization core.
//!
//! - [`bitmask`]: catalog ids as bits of a mask.
//! - [`models`]: the records, catalog entries, payloads and projections.
//! - [`services::permissions`]: the permission resolver.
//! - [`services::jwt`]: the session token codec.
//! - [`services::gate`]: the authorization state machine.
//! - [`utils::hash`]: the credential verifier.
//! - [`handlers`]: what each operation computes between storage and answer.
//!
//! Storage, transport and the clock stay with the caller: the functions
//! here take what was read and the time as plain values.

pub mod bitmask;
pub mod handlers;
pub mod models;
pub mod services;
pub mod utils;
