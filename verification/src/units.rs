//! Units of measurement and the constants of the arena.
//!
//! The arena is configured in whole units, and the snake's speed in whole units
//! per second. Positions and extents are kept in subunits, 660 to the unit. The
//! factor is chosen so that the three fractions the game needs are whole numbers
//! of subunits: half of an extent, the distance travelled in one tick of a
//! sixtieth of a second, and an extent divided by 2.75.

use vstd::prelude::*;

verus! {

/// Subunits in one unit of length.
pub const SUBUNITS_PER_UNIT: i32 = 660;

/// Ticks of the simulation in one second.
pub const TICKS_PER_SECOND: i32 = 60;

/// The fixed timestep: the subunits travelled in one tick at a speed of one
/// unit per second, which is a unit divided by the ticks in a second.
pub const TIME_STEP: i32 = 11;

/// Width of the snake, in units.
pub const SNAKE_WIDTH: i32 = 20;

/// Height of the snake, in units.
pub const SNAKE_HEIGHT: i32 = 20;

/// Speed of the snake along an axis, in units per second.
pub const SNAKE_SPEED: i32 = 700;

/// Width of a piece of food, in units.
pub const FOOD_WIDTH: i32 = 20;

/// Height of a piece of food, in units.
pub const FOOD_HEIGHT: i32 = 20;

/// The x coordinate of the centre line of the left wall, in units.
pub const LEFT_WALL: i32 = -450;

/// The x coordinate of the centre line of the right wall, in units.
pub const RIGHT_WALL: i32 = 450;

/// The y coordinate of the centre line of the bottom wall, in units.
pub const BOTTOM_WALL: i32 = -300;

/// The y coordinate of the centre line of the top wall, in units.
pub const TOP_WALL: i32 = 300;

/// Thickness of each wall, in units.
pub const WALL_THICKNESS: i32 = 10;

/// A length of `n` units, in subunits.
pub open spec fn subunits(n: int) -> int {
    n * SUBUNITS_PER_UNIT
}

/// A length of `n` units divided by 2.75, in subunits. Since 2.75 is 11/4 and
/// a unit is 660 subunits, this is `n` times 240.
pub open spec fn shrunk(n: int) -> int {
    n * SUBUNITS_PER_UNIT * 4 / 11
}

/// Converts a length in units to subunits.
pub fn to_subunits(n: i32) -> (s: i32)
    requires
        i32::MIN <= subunits(n as int) <= i32::MAX,
    ensures
        s == subunits(n as int),
{
    n * SUBUNITS_PER_UNIT
}

/// Divides a length in units by 2.75 and converts it to subunits.
pub fn to_shrunk_subunits(n: i32) -> (s: i32)
    requires
        i32::MIN <= subunits(n as int) <= i32::MAX,
    ensures
        s == shrunk(n as int),
{
    n * (SUBUNITS_PER_UNIT * 4 / 11)
}

/// One tick is a whole number of subunits for every whole speed, and a unit
/// divided by 2.75 is a whole number of subunits.
pub proof fn lemma_fractions_are_whole(n: int)
    ensures
        TIME_STEP * TICKS_PER_SECOND == SUBUNITS_PER_UNIT,
        shrunk(n) == n * 240,
        shrunk(n) * 11 == subunits(n) * 4,
{
}

} // verus!
