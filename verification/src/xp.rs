//! Season levels: the experience brackets of a season and the level that an
//! amount of season experience reaches.

use vstd::prelude::*;

verus! {

/// Defines the experience threshold per level for a range of levels.
#[derive(Clone, Copy, Debug)]
pub struct XpBracket {
    start_level: u32,
    end_level: u32,
    xp_per_level: u32,
}

impl XpBracket {
    /// The first level of the bracket.
    pub closed spec fn first(self) -> int {
        self.start_level as int
    }

    /// The last level of the bracket.
    pub closed spec fn last(self) -> int {
        self.end_level as int
    }

    /// The experience that each level of the bracket costs.
    pub closed spec fn cost(self) -> int {
        self.xp_per_level as int
    }
}

/// The highest season level.
pub const MAX_SEASON_LEVEL: u32 = 255;

/// The number of season brackets.
pub const SEASON_BRACKET_COUNT: usize = 8;

/// First level, last level and cost per level of the season bracket at `index`.
pub open spec fn season_bracket_shape(index: int) -> (int, int, int) {
    if index == 0 {
        (1, 10, 500)
    } else if index == 1 {
        (11, 20, 5_000)
    } else if index == 2 {
        (21, 40, 40_000)
    } else if index == 3 {
        (41, 60, 100_000)
    } else if index == 4 {
        (61, 100, 200_000)
    } else if index == 5 {
        (101, 150, 400_000)
    } else if index == 6 {
        (151, 200, 700_000)
    } else {
        (201, 255, 1_100_000)
    }
}

/// The season experience at which `level` begins, for levels 1 to 256; level
/// 256 stands for the end of the last bracket.
pub open spec fn season_level_floor(level: int) -> int {
    if level <= 10 {
        (level - 1) * 500
    } else if level <= 20 {
        5_000 + (level - 11) * 5_000
    } else if level <= 40 {
        55_000 + (level - 21) * 40_000
    } else if level <= 60 {
        855_000 + (level - 41) * 100_000
    } else if level <= 100 {
        2_855_000 + (level - 61) * 200_000
    } else if level <= 150 {
        10_855_000 + (level - 101) * 400_000
    } else if level <= 200 {
        30_855_000 + (level - 151) * 700_000
    } else {
        65_855_000 + (level - 201) * 1_100_000
    }
}

/// The season level that `xp` experience reaches: the brackets are paid for
/// one after the other, each level at its bracket's cost, up to level 255.
pub open spec fn season_level(xp: int) -> int {
    if xp < 5_000 {
        1 + xp / 500
    } else if xp < 55_000 {
        11 + (xp - 5_000) / 5_000
    } else if xp < 855_000 {
        21 + (xp - 55_000) / 40_000
    } else if xp < 2_855_000 {
        41 + (xp - 855_000) / 100_000
    } else if xp < 10_855_000 {
        61 + (xp - 2_855_000) / 200_000
    } else if xp < 30_855_000 {
        101 + (xp - 10_855_000) / 400_000
    } else if xp < 65_855_000 {
        151 + (xp - 30_855_000) / 700_000
    } else if xp < 126_355_000 {
        201 + (xp - 65_855_000) / 1_100_000
    } else {
        255
    }
}

/// The season brackets, lowest levels first.
pub fn season_brackets() -> (table: [XpBracket; 8])
    ensures
        forall|i: int|
            0 <= i < 8 ==> (#[trigger] table[i].first(), table[i].last(), table[i].cost())
                == season_bracket_shape(i),
{
    [
        XpBracket { start_level: 1, end_level: 10, xp_per_level: 500 },
        XpBracket { start_level: 11, end_level: 20, xp_per_level: 5_000 },
        XpBracket { start_level: 21, end_level: 40, xp_per_level: 40_000 },
        XpBracket { start_level: 41, end_level: 60, xp_per_level: 100_000 },
        XpBracket { start_level: 61, end_level: 100, xp_per_level: 200_000 },
        XpBracket { start_level: 101, end_level: 150, xp_per_level: 400_000 },
        XpBracket { start_level: 151, end_level: 200, xp_per_level: 700_000 },
        XpBracket { start_level: 201, end_level: 255, xp_per_level: 1_100_000 },
    ]
}

/// The cost of a whole bracket is the distance between the floor of its first
/// level and the floor of the level after its last.
proof fn lemma_bracket_total(index: int)
    requires
        0 <= index < 8,
    ensures
        ({
            let (first, last, cost) = season_bracket_shape(index);
            (last - first + 1) * cost == season_level_floor(last + 1) - season_level_floor(first)
        }),
{
    if index == 0 {
        assert((10 - 1 + 1) * 500 == 5_000);
    } else if index == 1 {
        assert((20 - 11 + 1) * 5_000 == 50_000);
    } else if index == 2 {
        assert((40 - 21 + 1) * 40_000 == 800_000);
    } else if index == 3 {
        assert((60 - 41 + 1) * 100_000 == 2_000_000);
    } else if index == 4 {
        assert((100 - 61 + 1) * 200_000 == 8_000_000);
    } else if index == 5 {
        assert((150 - 101 + 1) * 400_000 == 20_000_000);
    } else if index == 6 {
        assert((200 - 151 + 1) * 700_000 == 35_000_000);
    } else {
        assert((255 - 201 + 1) * 1_100_000 == 60_500_000);
    }
}

/// Calculates the season level for an amount of season experience.
pub fn calculate_season_level(xp: u32) -> (level: u32)
    ensures
        level == season_level(xp as int),
{
    let table = season_brackets();
    let mut current_level: u32 = 1;
    let mut remaining_xp: u32 = xp;
    let mut index: usize = 0;
    while index < SEASON_BRACKET_COUNT
        invariant
            index <= 8,
            forall|i: int|
                0 <= i < 8 ==> (#[trigger] table[i].first(), table[i].last(), table[i].cost())
                    == season_bracket_shape(i),
            current_level == if index == 8 {
                256
            } else {
                season_bracket_shape(index as int).0
            },
            remaining_xp == xp - season_level_floor(current_level as int),
        decreases 8 - index,
    {
        let bracket = table[index];
        proof {
            assert((table[index as int].first(), table[index as int].last(), table[index as int].cost())
                == season_bracket_shape(index as int));
            lemma_bracket_total(index as int);
        }
        let levels_in_bracket: u32 = bracket.end_level - bracket.start_level + 1;
        let bracket_total_xp: u32 = levels_in_bracket * bracket.xp_per_level;
        if remaining_xp >= bracket_total_xp {
            current_level = bracket.end_level + 1;
            remaining_xp -= bracket_total_xp;
        } else {
            let levels_earned: u32 = remaining_xp / bracket.xp_per_level;
            current_level += levels_earned;
            proof {
                let reached = current_level as int;
                let goal = season_level(xp as int);
                if index == 0 {
                    assert(reached == goal);
                } else if index == 1 {
                    assert(reached == goal);
                } else if index == 2 {
                    assert(reached == goal);
                } else if index == 3 {
                    assert(reached == goal);
                } else if index == 4 {
                    assert(reached == goal);
                } else if index == 5 {
                    assert(reached == goal);
                } else if index == 6 {
                    assert(reached == goal);
                } else {
                    assert(reached == goal);
                }
            }
            return if current_level < MAX_SEASON_LEVEL {
                current_level
            } else {
                MAX_SEASON_LEVEL
            };
        }
        index += 1;
    }
    if current_level < MAX_SEASON_LEVEL {
        current_level
    } else {
        MAX_SEASON_LEVEL
    }
}

/// A season level below the highest is reached exactly by the experience from
/// its floor up to the floor of the next level.
pub proof fn lemma_season_level_brackets_xp(xp: u32)
    requires
        season_level(xp as int) < 255,
    ensures
        1 <= season_level(xp as int),
        season_level_floor(season_level(xp as int)) <= xp,
        xp < season_level_floor(season_level(xp as int) + 1),
{
}

/// More season experience never lowers the season level.
pub proof fn lemma_season_level_monotonic(low: u32, high: u32)
    requires
        low <= high,
    ensures
        season_level(low as int) <= season_level(high as int),
{
}

} // verus!
