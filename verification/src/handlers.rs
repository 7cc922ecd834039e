//! What each operation of the service computes, between its storage reads
//! and its answer.

pub mod auth;
pub mod permissions;
pub mod roles;
pub mod users;
