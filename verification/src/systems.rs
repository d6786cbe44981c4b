//! The steps of a game: spawning the next piece, applying the held keys,
//! and advancing the clock.

use vstd::prelude::*;
use crate::board::lemma_valid_origin;
use crate::components::{ActivePiece, CoyoteTime, GameEvent, StepReport};
use crate::game::COYOTE_TIME_DURATION;
use crate::model::{below, lemma_headroom_suffices};
use crate::piece::{Position, TetrominoType};
use crate::simulation::GameSimulation;

verus! {

impl GameSimulation {
    /// Applies the horizontal part of the held keys: a move to the left if
    /// the left key is held, else to the right if the right key is.
    fn apply_sideways_input(&mut self) -> (report: StepReport)
        requires
            old(self).wf(),
        ensures
            final(self)@ == old(self)@.after_sideways_input().state,
            report@ == old(self)@.after_sideways_input().report,
            final(self).wf(),
    {
        proof {
            if let Some(piece) = self.active {
                lemma_valid_origin(self@.board, piece.position, piece.tetromino);
            }
        }
        if self.input.left {
            self.move_horizontal(-1)
        } else if self.input.right {
            self.move_horizontal(1)
        } else {
            StepReport::quiet()
        }
    }

    /// Applies the held keys to the falling piece, short of spawning the
    /// next piece. Nothing happens while the game is paused for a resize,
    /// while the screen shakes, or without a falling piece. A hard drop
    /// excludes everything else. Otherwise the piece moves sideways, then
    /// drops softly, then turns, each on the state that the one before
    /// left; a soft drop that locks the piece ends the step.
    pub fn apply_input(&mut self) -> (report: StepReport)
        requires
            old(self).wf(),
            old(self)@.input_fits(),
        ensures
            final(self)@ == old(self)@.after_input().state,
            report@ == old(self)@.after_input().report,
            final(self).wf(),
    {
        if self.paused_for_resize || self.screen_shake_active || self.active.is_none() {
            return StepReport::quiet();
        }
        if self.input.hard_drop {
            return self.hard_drop();
        }
        let mut report = self.apply_sideways_input();
        let ghost moved = report@;
        if self.input.down {
            let mut dropped = self.soft_drop();
            let ghost dropped_model = dropped@;
            report.events.append(&mut dropped.events);
            if dropped.needs_spawn {
                report.cleared_rows = dropped.cleared_rows;
                report.needs_spawn = true;
                assert(report@.events =~= moved.events + dropped_model.events);
                return report;
            }
        }
        if self.input.rotate {
            let mut rotated = self.rotate();
            report.events.append(&mut rotated.events);
        }
        assert(report@.events =~= old(self)@.after_input().report.events);
        assert(report@.cleared_rows =~= Seq::<int>::empty());
        report
    }

    /// Ends the grace period: a piece that can descend after all goes one
    /// row down and the drop timer starts again; a piece that is still
    /// blocked is locked where it is.
    fn expire_grace(&mut self) -> (report: StepReport)
        requires
            old(self).wf(),
            old(self).active matches Some(piece) ==> !old(self)@.board.valid(
                below(piece.position),
                piece.tetromino,
            ) ==> old(self)@.can_lock(piece.position, piece.tetromino),
        ensures
            final(self)@ == old(self)@.after_grace_expiry().state,
            report@ == old(self)@.after_grace_expiry().report,
            final(self).wf(),
    {
        self.coyote_time = CoyoteTime { active: false, timer: 0 };
        match self.active {
            Some(piece) => {
                proof {
                    lemma_valid_origin(self@.board, piece.position, piece.tetromino);
                }
                if self.can_continue_falling(piece.position, &piece.tetromino) {
                    let new_position = Position { x: piece.position.x, y: piece.position.y + 1 };
                    self.active = Some(
                        ActivePiece {
                            tetromino: piece.tetromino,
                            position: new_position,
                            ghost_piece: piece.ghost_piece,
                        },
                    );
                    self.drop_timer = 0;
                    StepReport::quiet()
                } else {
                    self.lock_piece(piece.position, &piece.tetromino)
                }
            },
            None => StepReport::quiet(),
        }
    }

    /// Carries out an automatic descent that has come due: without a
    /// falling piece the report says that the next one is due; a piece that
    /// can descend goes one row down; a blocked piece enters its grace
    /// period.
    fn apply_gravity(&mut self) -> (report: StepReport)
        requires
            old(self).wf(),
        ensures
            final(self)@ == old(self)@.after_gravity().state,
            report@ == old(self)@.after_gravity().report,
            final(self).wf(),
    {
        self.drop_timer = 0;
        let piece = match self.active {
            Some(piece) => piece,
            None => {
                let report = StepReport { events: Vec::new(), cleared_rows: Vec::new(), needs_spawn: true };
                assert(report@.cleared_rows =~= Seq::<int>::empty());
                return report;
            },
        };
        proof {
            lemma_valid_origin(self@.board, piece.position, piece.tetromino);
        }
        if self.can_continue_falling(piece.position, &piece.tetromino) {
            let new_position = Position { x: piece.position.x, y: piece.position.y + 1 };
            self.active = Some(
                ActivePiece {
                    tetromino: piece.tetromino,
                    position: new_position,
                    ghost_piece: piece.ghost_piece,
                },
            );
            StepReport::quiet()
        } else if !self.coyote_time.active {
            self.coyote_time = CoyoteTime { active: true, timer: 0 };
            let mut events: Vec<GameEvent> = Vec::new();
            events.push(GameEvent::CoyoteEnter { position: piece.position, tetromino: piece.tetromino });
            let report = StepReport { events, cleared_rows: Vec::new(), needs_spawn: false };
            assert(report@.events =~= old(self)@.after_gravity().report.events);
            assert(report@.cleared_rows =~= Seq::<int>::empty());
            report
        } else {
            StepReport::quiet()
        }
    }

    /// Advances the game by a logic step of `delta` microseconds, short of
    /// spawning the next piece. Nothing happens once the game is over.
    /// Otherwise the ghost is brought up to date. While the grace period
    /// runs, its timer advances and the drop timer rests; when the timer
    /// reaches the period's length, the period ends and the piece descends
    /// or is locked. While it does not run, the drop timer advances; when it
    /// reaches the level's delay, the piece descends or enters its grace
    /// period.
    pub fn advance(&mut self, delta: u64) -> (report: StepReport)
        requires
            old(self).wf(),
            old(self)@.tick_fits(delta),
        ensures
            final(self)@ == old(self)@.after_tick(delta).state,
            report@ == old(self)@.after_tick(delta).report,
            final(self).wf(),
    {
        if self.game_state.game_over {
            return StepReport::quiet();
        }
        self.update_ghost_positions();
        if self.coyote_time.active {
            let timer: u64 = self.coyote_time.timer.saturating_add(delta);
            if timer >= COYOTE_TIME_DURATION {
                self.expire_grace()
            } else {
                self.coyote_time = CoyoteTime { active: true, timer };
                StepReport::quiet()
            }
        } else {
            self.coyote_time = CoyoteTime { active: false, timer: 0 };
            self.drop_timer = self.drop_timer.saturating_add(delta);
            let drop_delay: u64 = self.game_state.get_drop_delay();
            if self.drop_timer >= drop_delay {
                self.apply_gravity()
            } else {
                StepReport::quiet()
            }
        }
    }
}

/// Spawns the next piece: the shape in the queue comes in, or a shape drawn
/// at random if the queue is empty, and a shape drawn at random takes its
/// place in the queue.
pub fn spawn_tetromino(sim: &mut GameSimulation)
    requires
        old(sim).board_fits(),
    ensures
        exists|fresh: TetrominoType, following: TetrominoType|
            final(sim)@ == old(sim)@.spawned(fresh, following),
        final(sim).wf(),
{
    let fresh = match sim.next_tetromino {
        Some(shape) => shape,
        None => TetrominoType::random(),
    };
    let following = TetrominoType::random();
    sim.place_piece(fresh, following);
    assert(sim@ == old(sim)@.spawned(fresh, following));
}

/// Applies the held keys, and spawns the next piece if the step locked the
/// falling one. The report is that of `apply_input`; the state is the one
/// that `apply_input` leaves, with the next piece spawned where the report
/// says that it was due.
pub fn input_system(sim: &mut GameSimulation) -> (report: StepReport)
    requires
        old(sim).wf(),
        old(sim)@.input_fits(),
    ensures
        report@ == old(sim)@.after_input().report,
        !report.needs_spawn ==> final(sim)@ == old(sim)@.after_input().state,
        report.needs_spawn ==> exists|fresh: TetrominoType, following: TetrominoType|
            final(sim)@ == old(sim)@.after_input().state.spawned(fresh, following),
        final(sim).wf(),
{
    let report = sim.apply_input();
    if report.needs_spawn {
        spawn_tetromino(sim);
    }
    report
}

/// Advances the game by a logic step of `delta_micros` microseconds, and
/// spawns the next piece if the step locked the falling one or found none.
/// The report is that of `advance`; the state is the one that `advance`
/// leaves, with the next piece spawned where the report says that it was
/// due.
pub fn game_tick_system(sim: &mut GameSimulation, delta_micros: u64) -> (report: StepReport)
    requires
        old(sim).wf(),
        old(sim)@.tick_fits(delta_micros),
    ensures
        report@ == old(sim)@.after_tick(delta_micros).report,
        !report.needs_spawn ==> final(sim)@ == old(sim)@.after_tick(delta_micros).state,
        report.needs_spawn ==> exists|fresh: TetrominoType, following: TetrominoType|
            final(sim)@ == old(sim)@.after_tick(delta_micros).state.spawned(fresh, following),
        final(sim).wf(),
{
    let report = sim.advance(delta_micros);
    if report.needs_spawn {
        spawn_tetromino(sim);
    }
    report
}

/// Applies the held keys as `input_system` does, where the state is well
/// formed and its counters have room. Where it is not, nothing is done and
/// nothing is reported.
pub fn checked_input_system(sim: &mut GameSimulation) -> (report: Option<StepReport>)
    ensures
        report is Some <==> old(sim).wf() && old(sim)@.has_headroom(),
        report is None ==> *final(sim) == *old(sim),
        report matches Some(step) ==> {
            &&& step@ == old(sim)@.after_input().report
            &&& !step.needs_spawn ==> final(sim)@ == old(sim)@.after_input().state
            &&& step.needs_spawn ==> exists|fresh: TetrominoType, following: TetrominoType|
                final(sim)@ == old(sim)@.after_input().state.spawned(fresh, following)
            &&& final(sim).wf()
        },
{
    if sim.is_well_formed() && sim.has_headroom() {
        proof {
            lemma_headroom_suffices(sim@, 0);
        }
        Some(input_system(sim))
    } else {
        None
    }
}

/// Advances the game as `game_tick_system` does, where the state is well
/// formed and its counters have room. Where it is not, nothing is done and
/// nothing is reported.
pub fn checked_game_tick_system(sim: &mut GameSimulation, delta_micros: u64) -> (report: Option<
    StepReport,
>)
    ensures
        report is Some <==> old(sim).wf() && old(sim)@.has_headroom(),
        report is None ==> *final(sim) == *old(sim),
        report matches Some(step) ==> {
            &&& step@ == old(sim)@.after_tick(delta_micros).report
            &&& !step.needs_spawn ==> final(sim)@ == old(sim)@.after_tick(delta_micros).state
            &&& step.needs_spawn ==> exists|fresh: TetrominoType, following: TetrominoType|
                final(sim)@ == old(sim)@.after_tick(delta_micros).state.spawned(fresh, following)
            &&& final(sim).wf()
        },
{
    if sim.is_well_formed() && sim.has_headroom() {
        proof {
            lemma_headroom_suffices(sim@, delta_micros);
        }
        Some(game_tick_system(sim, delta_micros))
    } else {
        None
    }
}

} // verus!
