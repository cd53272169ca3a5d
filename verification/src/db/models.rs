//! The rows of the accounts table, with times in seconds since 1970 and
//! identifiers as the 128 bits of their UUIDs.

use vstd::prelude::*;

verus! {

/// User account information.
#[derive(Clone, Debug, PartialEq, Eq)]
pub struct User {
    /// Unique user identifier.
    pub id: u128,
    /// User's wallet address (used for authentication).
    pub wallet_address: String,
    /// User's display username (optional).
    pub username: Option<String>,
    /// User's current experience points.
    pub xp_points: i32,
    /// User's current level.
    pub level: i16,
    /// Total value of the user's paper trading portfolio, in cents.
    pub portfolio_value_cents: i64,
    /// Available cash balance for trading, in cents.
    pub cash_balance_cents: i64,
    /// When the user account was created.
    pub created_at: i64,
    /// When the user account was last updated.
    pub updated_at: i64,
}

} // verus!
