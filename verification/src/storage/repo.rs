//! The tables of the sign-in protocol, held in memory.

pub mod auth;
pub mod tokens;
pub mod user;
