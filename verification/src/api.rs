//! The first wallet login of the exchange: a plain message with a nonce, a
//! signature over it, and the account that belongs to the wallet.

pub mod auth_utils;
pub mod errors;
pub mod routes;
pub mod types;
