//! Account level rules: how experience points map to account levels.

use vstd::prelude::*;

verus! {

/// Experience points that make up one account level.
pub const XP_PER_LEVEL: u32 = 1000;

/// The highest account level.
pub const MAX_LEVEL: u8 = 255;

/// The level that `xp_points` reach: one level per thousand points, counted
/// from level 1 and kept in eight bits, so the count wraps after level 255.
pub open spec fn level_from_xp(xp_points: int) -> int {
    (xp_points / 1000 + 1) % 256
}

/// The experience still to earn at `current_level` before the next one:
/// nothing at the highest level, otherwise a thousand points per level reached
/// so far plus one.
pub open spec fn next_level_requirement(current_level: int) -> int {
    if current_level >= 255 {
        0
    } else {
        (current_level + 1) * 1000
    }
}

/// The experience at which `level` begins.
pub open spec fn level_threshold(level: int) -> int {
    if level <= 1 {
        0
    } else {
        (level - 1) * 1000
    }
}

/// Calculates the account level for an amount of experience points.
pub fn calculate_level_from_xp(xp_points: u32) -> (level: u8)
    ensures
        level == level_from_xp(xp_points as int),
{
    let steps: u32 = xp_points / XP_PER_LEVEL + 1;
    (steps % 256) as u8
}

/// Turns a signed experience value into an unsigned one, treating negative
/// values as zero.
pub fn safe_xp_conversion(xp_points: i32) -> (xp: u32)
    ensures
        xp_points < 0 ==> xp == 0,
        xp_points >= 0 ==> xp == xp_points,
{
    if xp_points < 0 {
        0
    } else {
        xp_points as u32
    }
}

/// Calculates the experience required for the level after `current_level`.
pub fn xp_required_for_next_level(current_level: u8) -> (xp: u32)
    ensures
        xp == next_level_requirement(current_level as int),
{
    if current_level >= MAX_LEVEL {
        return 0;
    }
    (current_level as u32 + 1) * XP_PER_LEVEL
}

/// Calculates the total experience required to reach `level`.
pub fn xp_for_level(level: u8) -> (xp: u32)
    ensures
        xp == level_threshold(level as int),
{
    if level <= 1 {
        return 0;
    }
    (level - 1) as u32 * XP_PER_LEVEL
}

/// An account whose experience earns a level below the wrap-around has at
/// least the experience at which that level begins, and less than the next
/// level's.
pub proof fn lemma_level_brackets_xp(xp_points: u32)
    requires
        xp_points < 255_000,
    ensures
        level_threshold(level_from_xp(xp_points as int)) <= xp_points,
        xp_points < level_threshold(level_from_xp(xp_points as int) + 1),
{
}

} // verus!
