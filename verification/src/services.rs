//! The components of the authorization core.

pub mod gate;
pub mod jwt;
pub mod permissions;
