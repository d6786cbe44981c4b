//! Fixed parameters of the game: board size, timing, scoring and levels.

use vstd::prelude::*;

verus! {

/// Number of columns of the standard board.
pub const BOARD_WIDTH: usize = 10;

/// Number of rows of the standard board.
pub const BOARD_HEIGHT: usize = 20;

/// Length of the grace period before a grounded piece locks, in microseconds.
pub const COYOTE_TIME_DURATION: u64 = 50_000;

/// Base points for clearing one line.
pub const POINTS_SINGLE: u32 = 40;

/// Base points for clearing two lines at once.
pub const POINTS_DOUBLE: u32 = 100;

/// Base points for clearing three lines at once.
pub const POINTS_TRIPLE: u32 = 300;

/// Base points for clearing four lines at once.
pub const POINTS_TETRIS: u32 = 1200;

/// Bonus for a clear that leaves the board empty.
pub const PERFECT_CLEAR_BONUS: u32 = 3000;

/// Points per row travelled by a soft drop.
pub const SOFT_DROP_POINTS: u32 = 1;

/// Points per row travelled by a hard drop.
pub const HARD_DROP_POINTS: u32 = 2;

/// Base points for a T-spin that clears one line.
pub const TSPIN_SINGLE: u32 = 800;

/// Base points for a T-spin that clears two lines.
pub const TSPIN_DOUBLE: u32 = 1200;

/// Base points for a T-spin that clears three lines.
pub const TSPIN_TRIPLE: u32 = 1600;

/// Lines to clear for each level of the line-based progression.
pub const LINES_PER_LEVEL: u32 = 10;

/// Highest level.
pub const MAX_LEVEL: u32 = 30;

/// Level of a fresh game.
pub const STARTING_LEVEL: u32 = 1;

/// Score thresholds of the score-based progression, ascending: reaching the
/// first component of a pair grants the level in its second component.
pub const LEVEL_SCORE_THRESHOLDS: [(u32, u32); 29] = [
    (5_000, 2),
    (15_000, 3),
    (40_000, 4),
    (70_000, 5),
    (100_000, 6),
    (150_000, 7),
    (250_000, 8),
    (400_000, 9),
    (500_000, 10),
    (600_000, 11),
    (700_000, 12),
    (800_000, 13),
    (900_000, 14),
    (1_000_000, 15),
    (1_150_000, 16),
    (1_300_000, 17),
    (1_500_000, 18),
    (1_700_000, 19),
    (2_000_000, 20),
    (2_500_000, 21),
    (3_000_000, 22),
    (3_500_000, 23),
    (4_000_000, 24),
    (4_500_000, 25),
    (5_000_000, 26),
    (5_500_000, 27),
    (6_000_000, 28),
    (7_000_000, 29),
    (10_000_000, 30),
];

} // verus!
