//! Score keeping: points for line clears, combos, back-to-back clears,
//! T-spins and perfect clears, the level curve and the fall speed.

use vstd::prelude::*;
use crate::board::{Board, Grid};
use crate::game::{
    HARD_DROP_POINTS, LEVEL_SCORE_THRESHOLDS, LINES_PER_LEVEL, MAX_LEVEL, PERFECT_CLEAR_BONUS,
    POINTS_DOUBLE, POINTS_SINGLE, POINTS_TETRIS, POINTS_TRIPLE, SOFT_DROP_POINTS, STARTING_LEVEL,
    TSPIN_DOUBLE, TSPIN_SINGLE, TSPIN_TRIPLE,
};
use crate::piece::{Position, Tetromino, TetrominoType};

verus! {

/// The points that a clear of `lines` lines is worth before any multiplier:
/// 800, 1200, 1600 for a T-spin of one, two, three lines; 40, 100, 300, 1200
/// for an ordinary clear of one to four lines; 0 for any other count.
pub open spec fn base_points(lines: int, is_t_spin: bool) -> int {
    if is_t_spin {
        if lines == 1 {
            800
        } else if lines == 2 {
            1200
        } else if lines == 3 {
            1600
        } else {
            0
        }
    } else if lines == 1 {
        40
    } else if lines == 2 {
        100
    } else if lines == 3 {
        300
    } else if lines == 4 {
        1200
    } else {
        0
    }
}

/// A clear is difficult when it takes four lines or comes from a T-spin.
pub open spec fn is_difficult(lines: int, is_t_spin: bool) -> bool {
    lines == 4 || is_t_spin
}

/// The level that the score alone grants when only the first `count` entries
/// of the threshold table are looked at: the level of the last of them whose
/// threshold the score has reached, or the starting level if there is none.
pub open spec fn score_level_upto(score: u32, count: int) -> u32
    decreases count,
{
    if count <= 0 {
        STARTING_LEVEL
    } else if LEVEL_SCORE_THRESHOLDS[count - 1].0 <= score {
        LEVEL_SCORE_THRESHOLDS[count - 1].1
    } else {
        score_level_upto(score, count - 1)
    }
}

/// The level that the score alone grants.
pub open spec fn score_level(score: u32) -> u32 {
    score_level_upto(score, 29)
}

/// The level for a number of cleared lines and a score: the greater of one
/// level per ten lines, counted from the starting level, and the level that
/// the score grants, but never above the highest level.
pub open spec fn level_for(lines: u32, score: u32) -> int {
    let lines_level = lines / 10 + 1;
    let best = if lines_level >= score_level(score) {
        lines_level
    } else {
        score_level(score) as int
    };
    if best <= 30 {
        best
    } else {
        30
    }
}

/// The time between two automatic descents at a level, in microseconds:
/// 800 000 at level 1, less 70 000 for each level up to level 9; 200 000 at
/// level 10, less 10 000 for each level up to level 19; 100 000 from level
/// 20 on.
pub open spec fn drop_delay(level: u32) -> int {
    if level < 10 {
        870_000 - level * 70_000
    } else if level < 20 {
        200_000 - (level - 10) * 10_000
    } else {
        100_000
    }
}

/// How many of the four diagonal neighbours of the cell one column right of
/// and one row below `position` are blocked.
pub open spec fn blocked_corners(board: Grid, position: Position) -> int {
    (if board.is_blocked(position.x as int, position.y as int) {
        1int
    } else {
        0int
    }) + (if board.is_blocked(position.x + 2, position.y as int) {
        1int
    } else {
        0int
    }) + (if board.is_blocked(position.x as int, position.y + 2) {
        1int
    } else {
        0int
    }) + (if board.is_blocked(position.x + 2, position.y + 2) {
        1int
    } else {
        0int
    })
}

/// The T-spin rule: the piece is a `T` and at least three of the four
/// corners around its centre are blocked.
pub open spec fn spec_t_spin(board: Grid, position: Position, piece: Tetromino) -> bool {
    piece.tetromino_type == TetrominoType::T && blocked_corners(board, position) >= 3
}

/// Score, level and the counters that the scoring rules carry from one clear
/// to the next.
#[derive(Debug, Clone, Copy, PartialEq, Eq, Structural)]
pub struct GameState {
    pub score: u32,
    pub level: u32,
    pub lines_cleared: u32,
    pub game_over: bool,
    pub tetris_count: u32,
    pub t_spin_count: u32,
    pub perfect_clear_count: u32,
    pub combo_count: u32,
    pub back_to_back: bool,
    pub hard_drop_distance: u32,
    pub soft_drop_distance: u32,
    pub last_clear_was_difficult: bool,
}

impl Default for GameState {
    fn default() -> (state: GameState)
        ensures
            state == GameState::spec_default(),
    {
        GameState {
            score: 0,
            level: STARTING_LEVEL,
            lines_cleared: 0,
            game_over: false,
            tetris_count: 0,
            t_spin_count: 0,
            perfect_clear_count: 0,
            combo_count: 0,
            back_to_back: false,
            hard_drop_distance: 0,
            soft_drop_distance: 0,
            last_clear_was_difficult: false,
        }
    }
}

impl GameState {
    /// The state of a fresh game: level 1, everything else zero or false.
    pub open spec fn spec_default() -> GameState {
        GameState {
            score: 0,
            level: 1,
            lines_cleared: 0,
            game_over: false,
            tetris_count: 0,
            t_spin_count: 0,
            perfect_clear_count: 0,
            combo_count: 0,
            back_to_back: false,
            hard_drop_distance: 0,
            soft_drop_distance: 0,
            last_clear_was_difficult: false,
        }
    }

    /// Whether the back-to-back multiplier applies to a clear: the clear is
    /// difficult and the one before it was difficult too.
    pub open spec fn streak_applies(self, lines: int, is_t_spin: bool) -> bool {
        is_difficult(lines, is_t_spin) && self.last_clear_was_difficult && self.back_to_back
    }

    /// The base points of a clear after the back-to-back multiplier of one
    /// and a half.
    pub open spec fn adjusted_base(self, lines: int, is_t_spin: bool) -> int {
        if self.streak_applies(lines, is_t_spin) {
            base_points(lines, is_t_spin) * 3 / 2
        } else {
            base_points(lines, is_t_spin)
        }
    }

    /// The bonus for consecutive clears: half the adjusted base points for
    /// each clear that came directly before this one.
    pub open spec fn combo_bonus(self, lines: int, is_t_spin: bool) -> int {
        self.combo_count * self.adjusted_base(lines, is_t_spin) / 2
    }

    /// One point per row soft-dropped and two per row hard-dropped since the
    /// last scoring clear.
    pub open spec fn drop_bonus(self) -> int {
        self.soft_drop_distance * 1 + self.hard_drop_distance * 2
    }

    /// The points that a clear of at least one line adds to the score.
    pub open spec fn total_points(self, lines: int, is_t_spin: bool, is_perfect_clear: bool) -> int {
        self.adjusted_base(lines, is_t_spin) * self.level + self.combo_bonus(lines, is_t_spin) + (
        if is_perfect_clear {
            3000int
        } else {
            0int
        }) + self.drop_bonus()
    }

    /// Whether scoring a clear keeps every counter within its 32 bits.
    pub open spec fn can_score(self, lines: usize, is_t_spin: bool, is_perfect_clear: bool) -> bool {
        lines == 0 || {
            &&& self.combo_count < u32::MAX
            &&& is_t_spin && 1 <= lines <= 3 ==> self.t_spin_count < u32::MAX
            &&& !is_t_spin && lines == 4 ==> self.tetris_count < u32::MAX
            &&& is_perfect_clear ==> self.perfect_clear_count < u32::MAX
            &&& self.score + self.total_points(lines as int, is_t_spin, is_perfect_clear) <= u32::MAX
            &&& self.lines_cleared + lines <= u32::MAX
        }
    }

    /// The state after a clear of `lines` lines was scored.
    pub open spec fn scored(self, lines: usize, is_t_spin: bool, is_perfect_clear: bool) -> GameState {
        if lines == 0 {
            GameState { combo_count: 0, ..self }
        } else {
            let score = (self.score + self.total_points(lines as int, is_t_spin, is_perfect_clear)) as u32;
            let lines_cleared = (self.lines_cleared + lines) as u32;
            GameState {
                score,
                level: level_for(lines_cleared, score) as u32,
                lines_cleared,
                game_over: self.game_over,
                tetris_count: if !is_t_spin && lines == 4 {
                    (self.tetris_count + 1) as u32
                } else {
                    self.tetris_count
                },
                t_spin_count: if is_t_spin && 1 <= lines <= 3 {
                    (self.t_spin_count + 1) as u32
                } else {
                    self.t_spin_count
                },
                perfect_clear_count: if is_perfect_clear {
                    (self.perfect_clear_count + 1) as u32
                } else {
                    self.perfect_clear_count
                },
                combo_count: (self.combo_count + 1) as u32,
                back_to_back: is_difficult(lines as int, is_t_spin),
                hard_drop_distance: 0,
                soft_drop_distance: 0,
                last_clear_was_difficult: is_difficult(lines as int, is_t_spin),
            }
        }
    }

    /// The state after `rows` more rows of hard drop wait to be paid.
    pub open spec fn with_hard_drop(self, rows: int) -> GameState {
        GameState { hard_drop_distance: (self.hard_drop_distance + rows) as u32, ..self }
    }

    /// Whether the counters have room for one more step of a game on a
    /// board of `max_lines` rows: for one more soft drop, for a hard drop of
    /// up to `max_lines` rows, and for the scoring, after it, of any clear of
    /// up to `max_lines` lines.
    pub open spec fn headroom(self, max_lines: int) -> bool {
        &&& self.combo_count < u32::MAX
        &&& self.t_spin_count < u32::MAX
        &&& self.tetris_count < u32::MAX
        &&& self.perfect_clear_count < u32::MAX
        &&& self.lines_cleared + max_lines <= u32::MAX
        &&& self.soft_drop_distance < u32::MAX
        &&& self.hard_drop_distance + max_lines <= u32::MAX
        &&& self.score + 2400 * self.level + 1200 * self.combo_count + 3000 + self.soft_drop_distance
            + 2 * (self.hard_drop_distance + max_lines) <= u32::MAX
    }

    /// With headroom every clear of up to `max_lines` lines can be scored,
    /// also after a hard drop of up to `max_lines` rows.
    pub proof fn lemma_headroom_allows(
        self,
        max_lines: int,
        dropped: int,
        lines: usize,
        is_t_spin: bool,
        is_perfect_clear: bool,
    )
        requires
            self.headroom(max_lines),
            0 <= dropped <= max_lines,
            lines <= max_lines,
        ensures
            self.with_hard_drop(dropped).can_score(lines, is_t_spin, is_perfect_clear),
            self.with_hard_drop(0) == self,
    {
        let base = self.adjusted_base(lines as int, is_t_spin);
        assert(self.with_hard_drop(dropped).adjusted_base(lines as int, is_t_spin) == base);
        assert(base * self.level <= 2400 * self.level && self.combo_count * base <= 2400
            * self.combo_count) by (nonlinear_arith)
            requires
                0 <= base <= 2400,
                0 <= self.level,
                0 <= self.combo_count,
        ;
    }

    /// Whether the counters have room for one more step of a game on a board
    /// of `max_lines` rows.
    #[must_use]
    pub fn has_headroom(&self, max_lines: usize) -> (ok: bool)
        ensures
            ok == self.headroom(max_lines as int),
    {
        let limit: u64 = 0xffff_ffff;
        let rows: u64 = max_lines as u64;
        if self.combo_count == u32::MAX || self.t_spin_count == u32::MAX || self.tetris_count
            == u32::MAX || self.perfect_clear_count == u32::MAX || self.soft_drop_distance
            == u32::MAX {
            return false;
        }
        if rows > limit || self.lines_cleared as u64 + rows > limit || self.hard_drop_distance as u64
            + rows > limit {
            return false;
        }
        let sum: u64 = self.score as u64 + 2400 * (self.level as u64) + 1200 * (self.combo_count as u64)
            + 3000 + self.soft_drop_distance as u64 + 2 * (self.hard_drop_distance as u64 + rows);
        sum <= limit
    }

    /// Puts the state back to that of a fresh game.
    pub fn reset(&mut self)
        ensures
            *final(self) == GameState::spec_default(),
    {
        *self = GameState::default();
    }

    /// Whether the board is completely empty.
    #[must_use]
    pub fn is_perfect_clear(board: &Board) -> (empty: bool)
        requires
            board.wf(),
        ensures
            empty == board@.is_empty(),
    {
        let mut y: usize = 0;
        while y < board.height
            invariant
                board.wf(),
                y <= board.height,
                forall|i: int, j: int| 0 <= i < board.width && 0 <= j < y ==> (#[trigger] board@.cells[i][j]) is None,
            decreases board.height - y,
        {
            let mut x: usize = 0;
            while x < board.width
                invariant
                    board.wf(),
                    y < board.height,
                    x <= board.width,
                    forall|i: int, j: int|
                        0 <= i < board.width && 0 <= j < y ==> (#[trigger] board@.cells[i][j]) is None,
                    forall|i: int| 0 <= i < x ==> (#[trigger] board@.cells[i])[y as int] is None,
                decreases board.width - x,
            {
                if board.cells[x][y].is_some() {
                    assert(board@.in_bounds(x as int, y as int));
                    assert(board@.cells[x as int][y as int] is Some);
                    return false;
                }
                x += 1;
            }
            y += 1;
        }
        true
    }

    /// Whether `(x, y)` lies outside the board or holds a locked cell.
    fn corner_blocked(board: &Board, x: i64, y: i64) -> (blocked: bool)
        requires
            board.wf(),
        ensures
            blocked == board@.is_blocked(x as int, y as int),
    {
        if x < 0 || y < 0 || x as u64 >= board.width as u64 || y as u64 >= board.height as u64 {
            true
        } else {
            board.cells[x as usize][y as usize].is_some()
        }
    }

    /// Whether locking the piece at `position` counts as a T-spin: the piece
    /// is a `T`, and at least three of the four diagonal neighbours of its
    /// centre, the cell at `position + (1, 1)`, are blocked. A neighbour is
    /// blocked when it is outside the board or occupied.
    #[must_use]
    pub fn is_t_spin(board: &Board, position: Position, tetromino: &Tetromino) -> (t_spin: bool)
        requires
            board.wf(),
        ensures
            t_spin == spec_t_spin(board@, position, *tetromino),
    {
        if tetromino.tetromino_type != TetrominoType::T {
            return false;
        }
        let left: i64 = position.x as i64;
        let right: i64 = position.x as i64 + 2;
        let top: i64 = position.y as i64;
        let bottom: i64 = position.y as i64 + 2;
        let mut blocked: u8 = 0;
        if GameState::corner_blocked(board, left, top) {
            blocked += 1;
        }
        if GameState::corner_blocked(board, right, top) {
            blocked += 1;
        }
        if GameState::corner_blocked(board, left, bottom) {
            blocked += 1;
        }
        if GameState::corner_blocked(board, right, bottom) {
            blocked += 1;
        }
        blocked >= 3
    }

    /// The points that a clear of at least one line adds to the score: the
    /// base points, times one and a half in a back-to-back streak, times the
    /// level; the combo bonus; the perfect-clear bonus; and the drop
    /// distances' bonus.
    fn points_of_clear(&self, lines_cleared: usize, is_t_spin: bool, is_perfect_clear: bool) -> (points: u64)
        requires
            lines_cleared > 0,
        ensures
            points == self.total_points(lines_cleared as int, is_t_spin, is_perfect_clear),
    {
        let mut base_points: u64 = if is_t_spin {
            if lines_cleared == 1 {
                TSPIN_SINGLE as u64
            } else if lines_cleared == 2 {
                TSPIN_DOUBLE as u64
            } else if lines_cleared == 3 {
                TSPIN_TRIPLE as u64
            } else {
                0
            }
        } else if lines_cleared == 1 {
            POINTS_SINGLE as u64
        } else if lines_cleared == 2 {
            POINTS_DOUBLE as u64
        } else if lines_cleared == 3 {
            POINTS_TRIPLE as u64
        } else if lines_cleared == 4 {
            POINTS_TETRIS as u64
        } else {
            0
        };
        let is_difficult_clear = lines_cleared == 4 || is_t_spin;
        if is_difficult_clear && self.last_clear_was_difficult && self.back_to_back {
            base_points = base_points * 3 / 2;
        }
        assert(base_points == self.adjusted_base(lines_cleared as int, is_t_spin));
        assert(base_points * self.level <= 2400 * 0xffff_ffff && base_points * self.combo_count <= 2400
            * 0xffff_ffff && self.combo_count * base_points == base_points * self.combo_count)
            by (nonlinear_arith)
            requires
                0 <= base_points <= 2400,
                0 <= self.level <= 0xffff_ffff,
                0 <= self.combo_count <= 0xffff_ffff,
        ;
        let level_part: u64 = base_points * (self.level as u64);
        let combo_bonus: u64 = base_points * (self.combo_count as u64) / 2;
        let perfect_clear_bonus: u64 = if is_perfect_clear {
            PERFECT_CLEAR_BONUS as u64
        } else {
            0
        };
        assert(self.soft_drop_distance * SOFT_DROP_POINTS == self.soft_drop_distance * 1
            && self.hard_drop_distance * HARD_DROP_POINTS == self.hard_drop_distance * 2)
            by (nonlinear_arith)
            requires
                SOFT_DROP_POINTS == 1,
                HARD_DROP_POINTS == 2,
        ;
        let soft_part: u64 = self.soft_drop_distance as u64 * (SOFT_DROP_POINTS as u64);
        let hard_part: u64 = self.hard_drop_distance as u64 * (HARD_DROP_POINTS as u64);
        let drop_bonus: u64 = soft_part + hard_part;
        level_part + combo_bonus + perfect_clear_bonus + drop_bonus
    }

    /// Scores a lock that cleared `lines_cleared` lines.
    ///
    /// With no line cleared only the combo counter changes: it goes back to
    /// zero. Otherwise the combo counter goes up by one, the clear's points
    /// are added to the score, the drop distances are paid out and reset, the
    /// counters of the clear's kind go up, and the level is brought up to
    /// date.
    pub fn update_score(&mut self, lines_cleared: usize, is_t_spin: bool, is_perfect_clear: bool)
        requires
            old(self).can_score(lines_cleared, is_t_spin, is_perfect_clear),
        ensures
            *final(self) == old(self).scored(lines_cleared, is_t_spin, is_perfect_clear),
            lines_cleared == 0 ==> final(self).score == old(self).score && final(self).combo_count == 0,
            final(self).score >= old(self).score,
            final(self).lines_cleared >= old(self).lines_cleared,
            lines_cleared > 0 ==> 1 <= final(self).level <= 30,
    {
        if lines_cleared == 0 {
            self.combo_count = 0;
            return;
        }
        let total_points: u64 = self.points_of_clear(lines_cleared, is_t_spin, is_perfect_clear);
        proof {
            old(self).lemma_points_not_negative(lines_cleared as int, is_t_spin, is_perfect_clear);
        }

        self.combo_count += 1;
        if is_t_spin {
            if 1 <= lines_cleared && lines_cleared <= 3 {
                self.t_spin_count += 1;
            }
        } else if lines_cleared == 4 {
            self.tetris_count += 1;
        }
        let is_difficult_clear = lines_cleared == 4 || is_t_spin;
        self.back_to_back = is_difficult_clear;
        self.last_clear_was_difficult = is_difficult_clear;
        if is_perfect_clear {
            self.perfect_clear_count += 1;
        }
        self.soft_drop_distance = 0;
        self.hard_drop_distance = 0;
        self.score = (self.score as u64 + total_points) as u32;
        self.lines_cleared += lines_cleared as u32;

        self.update_level();
        proof {
            lemma_level_bounds(self.lines_cleared, self.score);
        }
    }

    /// No part of a clear's points is negative.
    pub proof fn lemma_points_not_negative(self, lines: int, is_t_spin: bool, is_perfect_clear: bool)
        ensures
            0 <= self.adjusted_base(lines, is_t_spin) <= 2400,
            0 <= self.adjusted_base(lines, is_t_spin) * self.level,
            0 <= self.combo_bonus(lines, is_t_spin),
            0 <= self.drop_bonus(),
            0 <= self.total_points(lines, is_t_spin, is_perfect_clear),
    {
        let base = self.adjusted_base(lines, is_t_spin);
        assert(0 <= base * self.level && 0 <= self.combo_count * base) by (nonlinear_arith)
            requires
                0 <= base,
                0 <= self.level,
                0 <= self.combo_count,
        ;
    }

    /// Brings the level up to date with the cleared lines and the score.
    pub fn update_level(&mut self)
        ensures
            final(self).level == level_for(old(self).lines_cleared, old(self).score),
            *final(self) == (GameState { level: final(self).level, ..*old(self) }),
    {
        let lines_level: u32 = (self.lines_cleared / LINES_PER_LEVEL) + STARTING_LEVEL;

        let mut score_level: u32 = STARTING_LEVEL;
        let mut i: usize = 0;
        let mut scanning = true;
        proof {
            lemma_thresholds_ascending();
        }
        while i < 29 && scanning
            invariant
                i <= 29,
                scanning ==> score_level == score_level_upto(self.score, i as int),
                !scanning ==> score_level == self::score_level(self.score),
                *self == *old(self),
            decreases 29 - i + if scanning { 1int } else { 0int },
        {
            let (threshold, level) = LEVEL_SCORE_THRESHOLDS[i];
            if self.score >= threshold {
                score_level = level;
                i += 1;
            } else {
                scanning = false;
                proof {
                    lemma_score_level_cut(self.score, i as int, 29);
                }
            }
        }

        let best: u32 = if lines_level >= score_level {
            lines_level
        } else {
            score_level
        };
        self.level = if best <= MAX_LEVEL {
            best
        } else {
            MAX_LEVEL
        };
    }

    /// The time between two automatic descents at the current level, in
    /// microseconds.
    #[must_use]
    pub fn get_drop_delay(&self) -> (delay: u64)
        ensures
            delay == drop_delay(self.level),
    {
        if self.level < 10 {
            870_000 - (self.level as u64) * 70_000
        } else if self.level < 20 {
            200_000 - (self.level as u64 - 10) * 10_000
        } else {
            100_000
        }
    }

    /// Adds the rows of a hard drop to the distance that the next scoring
    /// clear pays out.
    pub fn update_hard_drop_score(&mut self, drop_distance: u32)
        requires
            old(self).hard_drop_distance + drop_distance <= u32::MAX,
        ensures
            *final(self) == old(self).with_hard_drop(drop_distance as int),
    {
        self.hard_drop_distance += drop_distance;
    }
}

/// The thresholds ascend, and the levels they grant count up from 2 to 30.
pub proof fn lemma_thresholds_ascending()
    ensures
        forall|i: int, j: int|
            0 <= i < j < 29 ==> (#[trigger] LEVEL_SCORE_THRESHOLDS[i]).0 < (
            #[trigger] LEVEL_SCORE_THRESHOLDS[j]).0,
        forall|i: int| 0 <= i < 29 ==> (#[trigger] LEVEL_SCORE_THRESHOLDS[i]).1 == i + 2,
{
    assert forall|i: int| 0 <= i < 28 implies (#[trigger] LEVEL_SCORE_THRESHOLDS[i]).0
        < LEVEL_SCORE_THRESHOLDS[i + 1].0 && LEVEL_SCORE_THRESHOLDS[i].1 == i + 2 by {
        lemma_threshold_step(i);
    }
    assert(LEVEL_SCORE_THRESHOLDS[28].1 == 30);
    assert forall|i: int, j: int| 0 <= i < j < 29 implies (#[trigger] LEVEL_SCORE_THRESHOLDS[i]).0 < (
    #[trigger] LEVEL_SCORE_THRESHOLDS[j]).0 by {
        lemma_thresholds_chain(i, j);
    }
}

/// Each threshold is below the next one, and entry `i` grants level `i + 2`.
proof fn lemma_threshold_step(i: int)
    requires
        0 <= i < 28,
    ensures
        LEVEL_SCORE_THRESHOLDS[i].0 < LEVEL_SCORE_THRESHOLDS[i + 1].0,
        LEVEL_SCORE_THRESHOLDS[i].1 == i + 2,
{
    let t = LEVEL_SCORE_THRESHOLDS;
    assert(t[0] == (5_000u32, 2u32) && t[1] == (15_000u32, 3u32) && t[2] == (40_000u32, 4u32) && t[3]
        == (70_000u32, 5u32) && t[4] == (100_000u32, 6u32) && t[5] == (150_000u32, 7u32) && t[6] == (
        250_000u32,
        8u32,
    ) && t[7] == (400_000u32, 9u32) && t[8] == (500_000u32, 10u32) && t[9] == (600_000u32, 11u32));
    assert(t[10] == (700_000u32, 12u32) && t[11] == (800_000u32, 13u32) && t[12] == (900_000u32, 14u32)
        && t[13] == (1_000_000u32, 15u32) && t[14] == (1_150_000u32, 16u32) && t[15] == (
        1_300_000u32,
        17u32,
    ) && t[16] == (1_500_000u32, 18u32) && t[17] == (1_700_000u32, 19u32) && t[18] == (
        2_000_000u32,
        20u32,
    ) && t[19] == (2_500_000u32, 21u32));
    assert(t[20] == (3_000_000u32, 22u32) && t[21] == (3_500_000u32, 23u32) && t[22] == (
        4_000_000u32,
        24u32,
    ) && t[23] == (4_500_000u32, 25u32) && t[24] == (5_000_000u32, 26u32) && t[25] == (
        5_500_000u32,
        27u32,
    ) && t[26] == (6_000_000u32, 28u32) && t[27] == (7_000_000u32, 29u32) && t[28] == (
        10_000_000u32,
        30u32,
    ));
}

/// A threshold is below every later one.
proof fn lemma_thresholds_chain(i: int, j: int)
    requires
        0 <= i < j < 29,
    ensures
        LEVEL_SCORE_THRESHOLDS[i].0 < LEVEL_SCORE_THRESHOLDS[j].0,
    decreases j - i,
{
    lemma_threshold_step(j - 1);
    if i < j - 1 {
        lemma_thresholds_chain(i, j - 1);
    }
}

/// Entries whose thresholds the score has not reached do not change the
/// level that the score grants.
proof fn lemma_score_level_cut(score: u32, from: int, to: int)
    requires
        0 <= from <= to <= 29,
        from < 29 ==> LEVEL_SCORE_THRESHOLDS[from].0 > score,
    ensures
        score_level_upto(score, to) == score_level_upto(score, from),
    decreases to - from,
{
    if from < to {
        lemma_thresholds_ascending();
        lemma_score_level_cut(score, from, to - 1);
    }
}

/// The level that the score grants lies between 1 and 30 and does not fall
/// when the score rises.
pub proof fn lemma_score_level_monotone(low: u32, high: u32)
    requires
        low <= high,
    ensures
        1 <= score_level(low) <= score_level(high) <= 30,
{
    lemma_score_level_upto_monotone(low, high, 29);
}

/// The same for a prefix of the threshold table.
proof fn lemma_score_level_upto_monotone(low: u32, high: u32, count: int)
    requires
        low <= high,
        0 <= count <= 29,
    ensures
        1 <= score_level_upto(low, count) <= score_level_upto(high, count) <= count + 1,
    decreases count,
{
    lemma_thresholds_ascending();
    if count > 0 {
        lemma_score_level_upto_monotone(low, high, count - 1);
    }
}

/// Every level lies between 1 and 30.
pub proof fn lemma_level_bounds(lines: u32, score: u32)
    ensures
        1 <= level_for(lines, score) <= 30,
{
    lemma_score_level_monotone(score, score);
}

/// The level never falls when the cleared lines and the score do not fall.
pub proof fn lemma_level_monotone(lines_before: u32, score_before: u32, lines_after: u32, score_after: u32)
    requires
        lines_before <= lines_after,
        score_before <= score_after,
    ensures
        level_for(lines_before, score_before) <= level_for(lines_after, score_after),
{
    lemma_score_level_monotone(score_before, score_after);
}

/// The fall delay is 800 000 microseconds at level 1, 200 000 at level 10
/// and 100 000 at level 20, and a higher level never has a longer delay.
pub proof fn lemma_drop_delay_non_increasing(lower: u32, higher: u32)
    requires
        lower <= higher,
    ensures
        drop_delay(1) == 800_000,
        drop_delay(10) == 200_000,
        drop_delay(20) == 100_000,
        drop_delay(higher) <= drop_delay(lower),
        100_000 <= drop_delay(higher),
{
}

/// Scoring never lowers the score or the count of cleared lines, and it
/// leaves the end of the game as it is. Where the level agrees with the
/// lines and the score before, it agrees with them afterwards and has not
/// fallen.
pub proof fn lemma_scoring_keeps_progress(state: GameState, lines: usize, is_t_spin: bool, is_perfect_clear: bool)
    requires
        state.can_score(lines, is_t_spin, is_perfect_clear),
    ensures
        state.scored(lines, is_t_spin, is_perfect_clear).score >= state.score,
        state.scored(lines, is_t_spin, is_perfect_clear).lines_cleared >= state.lines_cleared,
        state.scored(lines, is_t_spin, is_perfect_clear).game_over == state.game_over,
        state.level == level_for(state.lines_cleared, state.score) ==> {
            let after = state.scored(lines, is_t_spin, is_perfect_clear);
            after.level == level_for(after.lines_cleared, after.score) && after.level >= state.level
        },
{
    state.lemma_points_not_negative(lines as int, is_t_spin, is_perfect_clear);
    let after = state.scored(lines, is_t_spin, is_perfect_clear);
    if lines > 0 {
        lemma_level_bounds(after.lines_cleared, after.score);
        lemma_level_monotone(state.lines_cleared, state.score, after.lines_cleared, after.score);
    }
}

/// The first clear of a game, when it takes four lines without a T-spin or
/// a perfect clear and no drop distance is waiting to be paid, adds exactly
/// 1200 points times the level.
pub proof fn lemma_first_tetris_points(state: GameState)
    requires
        state.combo_count == 0,
        !state.back_to_back,
        state.soft_drop_distance == 0,
        state.hard_drop_distance == 0,
        state.can_score(4, false, false),
    ensures
        state.scored(4, false, false).score == state.score + 1200 * state.level,
        state.scored(4, false, false).combo_count == 1,
{
}

/// Of two four-line clears in a row, the first not itself part of a streak,
/// the second has base points of exactly one and a half times the first's.
pub proof fn lemma_back_to_back_tetris(state: GameState, first_perfect: bool)
    requires
        !(state.back_to_back && state.last_clear_was_difficult),
        state.can_score(4, false, first_perfect),
    ensures
        state.adjusted_base(4, false) == 1200,
        state.scored(4, false, first_perfect).adjusted_base(4, false) == 1800,
        2 * state.scored(4, false, first_perfect).adjusted_base(4, false) == 3 * state.adjusted_base(
            4,
            false,
        ),
{
}

} // verus!
