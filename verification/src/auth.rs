//! Wallet-based sign-in: challenges, signatures, tokens and the steps of a login.

pub mod crypto;
pub mod error;
pub mod handlers;
pub mod jwt;
pub mod message;
pub mod service;
pub mod types;
pub mod utils;
