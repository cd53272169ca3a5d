//! What the queries on accounts write: the row of a new account, and the
//! columns that change with an account's experience.

use crate::db::models::User;
use crate::game::{calculate_level_from_xp, level_from_xp};
use vstd::prelude::*;

verus! {

/// The cash that a new account starts with, in cents: ten thousand dollars.
pub const STARTING_BALANCE_CENTS: i64 = 1_000_000;

/// The row of a new account: no experience, level 1, the starting cash as
/// balance and as portfolio value, created and updated at `now`.
pub fn create_user(id: u128, wallet_address: &str, username: Option<&str>, now: i64) -> (user: User)
    ensures
        user.id == id,
        user.wallet_address@ == wallet_address@,
        match username {
            Some(name) => user.username matches Some(n) && n@ == name@,
            None => user.username is None,
        },
        user.xp_points == 0,
        user.level == 1,
        user.portfolio_value_cents == 1_000_000,
        user.cash_balance_cents == 1_000_000,
        user.created_at == now,
        user.updated_at == now,
{
    User {
        id,
        wallet_address: String::from_str(wallet_address),
        username: match username {
            Some(name) => Some(String::from_str(name)),
            None => None,
        },
        xp_points: 0,
        level: 1,
        portfolio_value_cents: STARTING_BALANCE_CENTS,
        cash_balance_cents: STARTING_BALANCE_CENTS,
        created_at: now,
        updated_at: now,
    }
}

/// The experience as the signed column holds it: values from 2^31 on wrap
/// into the negative numbers.
pub open spec fn xp_column(xp_points: u32) -> int {
    if xp_points < 0x8000_0000 {
        xp_points as int
    } else {
        xp_points - 0x1_0000_0000
    }
}

/// The columns that an account's experience sets: the experience itself and
/// the level that it reaches.
pub fn update_user_xp(xp_points: u32) -> (columns: (i32, i16))
    ensures
        columns.0 == xp_column(xp_points),
        columns.1 == level_from_xp(xp_points as int),
{
    let level = calculate_level_from_xp(xp_points);
    let xp: i32 = if xp_points < 0x8000_0000 {
        xp_points as i32
    } else {
        ((xp_points - 0x8000_0000) as i32) + i32::MIN
    };
    (xp, level as i16)
}

} // verus!
