//! The operations on the falling piece: move, soft drop, rotate, hard drop
//! and lock.

use vstd::prelude::*;
use crate::board::{as_ints, lemma_locked_wf, lemma_valid_origin};
use crate::components::{ActivePiece, CoyoteTime, GameEvent, GhostPiece, StepReport};
use crate::model::{below, beside, lock_events, lowered, turned, SimModel};
use crate::piece::{Position, Tetromino};
use crate::score::GameState;
use crate::simulation::GameSimulation;

verus! {

/// The events of a lock on a board of the given size that cleared `lines`
/// lines: the lock, then the line clear if there was one, then the perfect
/// clear if it was one.
fn events_of_lock(
    width: usize,
    height: usize,
    position: Position,
    tetromino: &Tetromino,
    lines: usize,
    is_t_spin: bool,
    is_perfect_clear: bool,
) -> (events: Vec<GameEvent>)
    ensures
        events@ == lock_events(
            width as int,
            height as int,
            position,
            *tetromino,
            lines as int,
            is_t_spin,
            is_perfect_clear,
        ),
{
    let mut events: Vec<GameEvent> = Vec::new();
    events.push(GameEvent::Lock { position, tetromino: *tetromino });
    if lines > 0 {
        events.push(GameEvent::LineClear { board_width: width, lines, is_t_spin });
        if is_perfect_clear {
            events.push(GameEvent::PerfectClear { width, height });
        }
    }
    assert(events@ =~= lock_events(
        width as int,
        height as int,
        position,
        *tetromino,
        lines as int,
        is_t_spin,
        is_perfect_clear,
    ));
    events
}

impl GameSimulation {
    /// Writes the piece's cells into the board and clears the completed
    /// lines. Returns how many lines there were, their rows, and whether the
    /// clear took at least one line and left the board empty.
    fn settle(&mut self, position: Position, tetromino: &Tetromino) -> (cleared: (usize, Vec<usize>, bool))
        requires
            old(self).board_fits(),
            tetromino.rotation < 4,
        ensures
            final(self).board_fits(),
            final(self)@.board.wf(),
            final(self).board.width == old(self).board.width,
            final(self).board.height == old(self).board.height,
            final(self)@ == (SimModel {
                board: old(self)@.board_after_lock(position, *tetromino),
                ..old(self)@
            }),
            as_ints(cleared.1@) == old(self)@.rows_of_lock(position, *tetromino),
            cleared.0 == old(self)@.rows_of_lock(position, *tetromino).len(),
            cleared.0 <= old(self).board.height,
            cleared.2 == old(self)@.perfect_lock(position, *tetromino),
    {
        proof {
            lemma_locked_wf(self@.board, position, *tetromino);
        }
        self.board.lock_tetromino(position, tetromino);
        let (lines_cleared, cleared_rows) = self.board.clear_lines_with_indices();
        let is_perfect_clear = if lines_cleared > 0 {
            GameState::is_perfect_clear(&self.board)
        } else {
            false
        };
        (lines_cleared, cleared_rows, is_perfect_clear)
    }

    /// Locks `tetromino` at `position`. The T-spin rule is asked of the
    /// board as it is; then the piece's cells go into the board, the
    /// completed lines are cleared, and the clear is scored, as a perfect
    /// clear if it took at least one line and left the board empty. No
    /// piece falls afterwards; the report says that the next one is due.
    pub fn lock_piece(&mut self, position: Position, tetromino: &Tetromino) -> (report: StepReport)
        requires
            old(self).board_fits(),
            tetromino.rotation < 4,
            old(self)@.can_lock(position, *tetromino),
        ensures
            final(self)@ == old(self)@.after_lock(position, *tetromino).state,
            report@ == old(self)@.after_lock(position, *tetromino).report,
            final(self).wf(),
    {
        let is_t_spin = GameState::is_t_spin(&self.board, position, tetromino);
        let (lines_cleared, cleared_rows, is_perfect_clear) = self.settle(position, tetromino);
        self.game_state.update_score(lines_cleared, is_t_spin, is_perfect_clear);
        self.active = None;
        let events = events_of_lock(
            self.board.width,
            self.board.height,
            position,
            tetromino,
            lines_cleared,
            is_t_spin,
            is_perfect_clear,
        );
        StepReport { events, cleared_rows, needs_spawn: true }
    }

    /// Drops the falling piece as far as it can go and locks it there at
    /// once, without a grace period. The rows it travelled are added to the
    /// hard-drop distance; then the piece is locked as `lock_piece` locks it:
    /// its cells go into the board, the completed lines are cleared, and the
    /// clear is scored, the distance of this drop included. The report is
    /// that of the lock with the hard-drop event at its end; it says that
    /// the next piece is due. Without a falling piece nothing happens.
    pub fn hard_drop(&mut self) -> (report: StepReport)
        requires
            old(self).wf(),
            old(self)@.can_hard_drop(),
        ensures
            final(self)@ == old(self)@.after_hard_drop().state,
            report@ == old(self)@.after_hard_drop().report,
            final(self).wf(),
    {
        let piece = match self.active {
            Some(piece) => piece,
            None => {
                return StepReport::quiet();
            },
        };
        let hard_drop_distance = self.drop_distance(piece.position, &piece.tetromino);
        self.game_state.update_hard_drop_score(hard_drop_distance);
        let final_position = Position {
            x: piece.position.x,
            y: piece.position.y + hard_drop_distance as i32,
        };
        assert(final_position == lowered(piece.position, hard_drop_distance as int));
        assert(self@ == old(self)@.with_hard_drop(hard_drop_distance as int));

        let mut report = self.lock_piece(final_position, &piece.tetromino);
        report.events.push(GameEvent::HardDrop { distance: hard_drop_distance });
        report
    }

    /// The grace hook for a piece that has just been moved or turned: it
    /// fires while the grace period runs and the piece cannot descend.
    fn grace_events(&self, position: Position, tetromino: &Tetromino) -> (events: Vec<GameEvent>)
        requires
            self.board.wf(),
            tetromino.rotation < 4,
            position.y < i32::MAX,
        ensures
            events@ == self@.grace_events(position, *tetromino),
    {
        let mut events: Vec<GameEvent> = Vec::new();
        if self.coyote_time.active && !self.can_continue_falling(position, tetromino) {
            events.push(GameEvent::CoyoteEnter { position, tetromino: *tetromino });
        }
        assert(events@ =~= self@.grace_events(position, *tetromino));
        events
    }

    /// Moves the falling piece `dx` columns to the right if it fits there;
    /// its ghost goes to the same column. A move that does not fit changes
    /// nothing.
    pub fn move_horizontal(&mut self, dx: i32) -> (report: StepReport)
        requires
            old(self).wf(),
            old(self).active matches Some(piece) ==> piece.position.x + dx <= i32::MAX,
        ensures
            final(self)@ == old(self)@.after_move(dx as int).state,
            report@ == old(self)@.after_move(dx as int).report,
            final(self).wf(),
    {
        let piece = match self.active {
            Some(piece) => piece,
            None => {
                return StepReport::quiet();
            },
        };
        proof {
            lemma_valid_origin(self@.board, piece.position, piece.tetromino);
        }
        let new_position = Position { x: piece.position.x + dx, y: piece.position.y };
        assert(new_position == beside(piece.position, dx as int));
        if !self.board.is_valid_position(new_position, &piece.tetromino) {
            return StepReport::quiet();
        }
        proof {
            lemma_valid_origin(self@.board, new_position, piece.tetromino);
        }
        let events = self.grace_events(new_position, &piece.tetromino);
        self.active = Some(
            ActivePiece {
                tetromino: piece.tetromino,
                position: new_position,
                ghost_piece: GhostPiece {
                    position: Position { x: new_position.x, y: piece.ghost_piece.position.y },
                },
            },
        );
        let report = StepReport { events, cleared_rows: Vec::new(), needs_spawn: false };
        assert(report@.cleared_rows =~= Seq::<int>::empty());
        report
    }

    /// Takes the falling piece one row down if it fits there: the soft-drop
    /// distance goes up by one, the drop timer starts again and a running
    /// grace period ends. A piece that cannot go down is locked where it
    /// is, at once.
    pub fn soft_drop(&mut self) -> (report: StepReport)
        requires
            old(self).wf(),
            old(self)@.can_soft_drop(),
        ensures
            final(self)@ == old(self)@.after_soft_drop().state,
            report@ == old(self)@.after_soft_drop().report,
            final(self).wf(),
    {
        let piece = match self.active {
            Some(piece) => piece,
            None => {
                return StepReport::quiet();
            },
        };
        proof {
            lemma_valid_origin(self@.board, piece.position, piece.tetromino);
        }
        if self.can_continue_falling(piece.position, &piece.tetromino) {
            let new_position = Position { x: piece.position.x, y: piece.position.y + 1 };
            self.active = Some(
                ActivePiece {
                    tetromino: piece.tetromino,
                    position: new_position,
                    ghost_piece: piece.ghost_piece,
                },
            );
            self.game_state.soft_drop_distance += 1;
            self.drop_timer = 0;
            if self.coyote_time.active {
                self.coyote_time = CoyoteTime { active: false, timer: 0 };
            }
            StepReport::quiet()
        } else {
            self.lock_piece(piece.position, &piece.tetromino)
        }
    }

    /// Turns the falling piece to its next rotation state if it fits so. A
    /// rotation that does not fit leaves the rotation state as it is.
    pub fn rotate(&mut self) -> (report: StepReport)
        requires
            old(self).wf(),
        ensures
            final(self)@ == old(self)@.after_rotate().state,
            report@ == old(self)@.after_rotate().report,
            final(self).wf(),
            old(self).active matches Some(piece) ==> !old(self)@.board.valid(
                piece.position,
                turned(piece.tetromino),
            ) ==> final(self)@ == old(self)@,
    {
        let piece = match self.active {
            Some(piece) => piece,
            None => {
                return StepReport::quiet();
            },
        };
        proof {
            lemma_valid_origin(self@.board, piece.position, piece.tetromino);
        }
        let mut new_tetromino = piece.tetromino;
        new_tetromino.rotate();
        assert(new_tetromino == turned(piece.tetromino));
        if !self.board.is_valid_position(piece.position, &new_tetromino) {
            return StepReport::quiet();
        }
        let mut events: Vec<GameEvent> = Vec::new();
        events.push(GameEvent::Rotate { position: piece.position, tetromino: new_tetromino });
        let mut grace = self.grace_events(piece.position, &new_tetromino);
        events.append(&mut grace);
        self.active = Some(
            ActivePiece {
                tetromino: new_tetromino,
                position: piece.position,
                ghost_piece: piece.ghost_piece,
            },
        );
        let report = StepReport { events, cleared_rows: Vec::new(), needs_spawn: false };
        assert(report@.events =~= old(self)@.after_rotate().report.events);
        assert(report@.cleared_rows =~= Seq::<int>::empty());
        report
    }
}

} // verus!
