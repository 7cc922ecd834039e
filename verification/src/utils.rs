//! Errors, text helpers, identifiers and password hashing.

pub mod error;
pub mod hash;
pub mod ident;
pub mod text;
