//! The simulation as a mathematical state machine: its state, and for each
//! operation the state and the report that follow from a state.

use vstd::prelude::*;
use crate::board::{lemma_full_rows, lemma_locked_wf, lemma_valid_origin, Grid};
use crate::components::{ActivePiece, CoyoteTime, GameEvent, GhostPiece, Input, ReportModel};
use crate::game::COYOTE_TIME_DURATION;
use crate::piece::{Position, Tetromino, TetrominoType};
use crate::score::{drop_delay, lemma_scoring_keeps_progress, spec_t_spin, GameState};

verus! {

/// The position one row further down.
pub open spec fn below(position: Position) -> Position {
    Position { x: position.x, y: (position.y + 1) as i32 }
}

/// The position `rows` rows further down.
pub open spec fn lowered(position: Position, rows: int) -> Position {
    Position { x: position.x, y: (position.y + rows) as i32 }
}

/// The position `dx` columns to the right.
pub open spec fn beside(position: Position, dx: int) -> Position {
    Position { x: (position.x + dx) as i32, y: position.y }
}

/// The piece in its next rotation state.
pub open spec fn turned(piece: Tetromino) -> Tetromino {
    Tetromino { tetromino_type: piece.tetromino_type, rotation: ((piece.rotation + 1) % 4) as usize }
}

/// A timer after `delta` more microseconds; it stops at the largest value
/// that it can hold.
pub open spec fn advanced(timer: u64, delta: u64) -> u64 {
    if timer + delta > u64::MAX {
        u64::MAX
    } else {
        (timer + delta) as u64
    }
}

/// How many rows the piece can descend from `position`, counting at most
/// `limit` rows.
pub open spec fn fall_steps(board: Grid, position: Position, piece: Tetromino, limit: nat) -> nat
    decreases limit,
{
    if limit > 0 && board.valid(below(position), piece) {
        1 + fall_steps(board, below(position), piece, (limit - 1) as nat)
    } else {
        0
    }
}

/// How many rows the piece can descend from `position` before it is blocked.
/// The board's height bounds the count, since every position that the piece
/// passes lies on the board.
pub open spec fn fall_distance(board: Grid, position: Position, piece: Tetromino) -> nat {
    fall_steps(board, position, piece, board.height as nat)
}

/// The locked cells among the first `count` rows of column `x`, top row
/// first, each with its position and its shape.
pub open spec fn column_blocks(board: Grid, x: int, count: int) -> Seq<(Position, TetrominoType)>
    decreases count,
{
    if count <= 0 {
        Seq::empty()
    } else {
        match board.cells[x][count - 1] {
            Some(shape) => column_blocks(board, x, count - 1).push(
                (Position { x: x as i32, y: (count - 1) as i32 }, shape),
            ),
            None => column_blocks(board, x, count - 1),
        }
    }
}

/// The locked cells of the first `count` columns, column by column from
/// the left.
pub open spec fn board_blocks(board: Grid, count: int) -> Seq<(Position, TetrominoType)>
    decreases count,
{
    if count <= 0 {
        Seq::empty()
    } else {
        board_blocks(board, count - 1) + column_blocks(board, count - 1, board.height)
    }
}

/// The four cells of the falling piece, each with its position and the
/// piece's shape.
pub open spec fn piece_blocks(piece: ActivePiece) -> Seq<(Position, TetrominoType)> {
    Seq::new(
        4,
        |k: int|
            (
                Position {
                    x: (piece.position.x + piece.tetromino.spec_blocks()[k].0) as i32,
                    y: (piece.position.y + piece.tetromino.spec_blocks()[k].1) as i32,
                },
                piece.tetromino.tetromino_type,
            ),
    )
}

/// The events of a lock on a board of the given size that cleared `lines`
/// lines: the lock, then the line clear if there was one, then the perfect
/// clear if it was one.
pub open spec fn lock_events(
    width: int,
    height: int,
    position: Position,
    piece: Tetromino,
    lines: int,
    is_t_spin: bool,
    perfect: bool,
) -> Seq<GameEvent> {
    let lock = seq![GameEvent::Lock { position, tetromino: piece }];
    let clear = GameEvent::LineClear { board_width: width as usize, lines: lines as usize, is_t_spin };
    if lines <= 0 {
        lock
    } else if perfect {
        lock.push(clear).push(GameEvent::PerfectClear { width: width as usize, height: height as usize })
    } else {
        lock.push(clear)
    }
}

/// The state of the simulation as a mathematical value.
pub struct SimModel {
    pub board: Grid,
    pub game_state: GameState,
    pub active: Option<ActivePiece>,
    pub next_tetromino: Option<TetrominoType>,
    pub coyote_time: CoyoteTime,
    pub drop_timer: u64,
    pub input: Input,
    pub paused_for_resize: bool,
    pub screen_shake_active: bool,
}

/// What an operation leads to: the next state and the report.
pub struct Outcome {
    pub state: SimModel,
    pub report: ReportModel,
}

impl SimModel {
    /// The board is well formed and no larger than a coordinate can say, and
    /// the falling piece, if there is one, lies on free cells of the board.
    pub open spec fn wf(self) -> bool {
        &&& self.board.wf()
        &&& self.board.width <= i32::MAX
        &&& self.board.height <= i32::MAX
        &&& match self.active {
            Some(piece) => piece.tetromino.rotation < 4 && self.board.valid(
                piece.position,
                piece.tetromino,
            ),
            None => true,
        }
    }

    /// The counters have room for one more step.
    pub open spec fn has_headroom(self) -> bool {
        self.game_state.headroom(self.board.height)
    }

    /// The rows that the lock of `piece` at `position` completes, top row
    /// first.
    pub open spec fn rows_of_lock(self, position: Position, piece: Tetromino) -> Seq<int> {
        self.board.locked(position, piece).full_rows(self.board.height)
    }

    /// The board after `piece` was locked at `position` and the completed
    /// lines were cleared.
    pub open spec fn board_after_lock(self, position: Position, piece: Tetromino) -> Grid {
        self.board.locked(position, piece).compact(self.rows_of_lock(position, piece))
    }

    /// Whether the lock of `piece` at `position` is a perfect clear: it
    /// completes at least one line, and the clear leaves the board empty.
    pub open spec fn perfect_lock(self, position: Position, piece: Tetromino) -> bool {
        self.rows_of_lock(position, piece).len() > 0 && self.board_after_lock(position, piece).is_empty()
    }

    /// The score and counters after the lock of `piece` at `position`.
    pub open spec fn score_after_lock(self, position: Position, piece: Tetromino) -> GameState {
        self.game_state.scored(
            self.rows_of_lock(position, piece).len() as usize,
            spec_t_spin(self.board, position, piece),
            self.perfect_lock(position, piece),
        )
    }

    /// Whether the score can take the lock of `piece` at `position` within
    /// its 32 bits.
    pub open spec fn can_lock(self, position: Position, piece: Tetromino) -> bool {
        self.game_state.can_score(
            self.rows_of_lock(position, piece).len() as usize,
            spec_t_spin(self.board, position, piece),
            self.perfect_lock(position, piece),
        )
    }

    /// Whether the counters can take a hard drop within their 32 bits: the
    /// hard-drop distance can take the rows of the drop, and the score can
    /// take the lock that follows.
    pub open spec fn can_hard_drop(self) -> bool {
        match self.active {
            Some(piece) => {
                let distance = fall_distance(self.board, piece.position, piece.tetromino);
                &&& self.game_state.hard_drop_distance + distance <= u32::MAX
                &&& self.with_hard_drop(distance as int).can_lock(
                    lowered(piece.position, distance as int),
                    piece.tetromino,
                )
            },
            None => true,
        }
    }

    /// Whether the counters can take a soft drop within their 32 bits.
    pub open spec fn can_soft_drop(self) -> bool {
        match self.active {
            Some(piece) => if self.board.valid(below(piece.position), piece.tetromino) {
                self.game_state.soft_drop_distance < u32::MAX
            } else {
                self.can_lock(piece.position, piece.tetromino)
            },
            None => true,
        }
    }

    /// Whether the counters can take the held keys within their 32 bits.
    pub open spec fn input_fits(self) -> bool {
        if self.paused_for_resize || self.screen_shake_active || self.active is None {
            true
        } else if self.input.hard_drop {
            self.can_hard_drop()
        } else {
            self.input.down ==> self.after_sideways_input().state.can_soft_drop()
        }
    }

    /// Whether the score can take a logic step of `delta` microseconds
    /// within its 32 bits: if the step locks the piece, the lock can be
    /// scored.
    pub open spec fn tick_fits(self, delta: u64) -> bool {
        match self.active {
            Some(piece) => !self.game_state.game_over && self.coyote_time.active && advanced(
                self.coyote_time.timer,
                delta,
            ) >= COYOTE_TIME_DURATION && !self.board.valid(below(piece.position), piece.tetromino)
                ==> self.can_lock(piece.position, piece.tetromino),
            None => true,
        }
    }

    /// What there is to draw: the locked cells of the board, column by
    /// column from the left and from the top down, then the cells of the
    /// falling piece.
    pub open spec fn render_blocks(self) -> Seq<(Position, TetrominoType)> {
        board_blocks(self.board, self.board.width) + match self.active {
            Some(piece) => piece_blocks(piece),
            None => Seq::empty(),
        }
    }

    /// The outcome of an operation that changes nothing and reports nothing.
    pub open spec fn idle(self) -> Outcome {
        Outcome { state: self, report: ReportModel::quiet() }
    }

    /// Where a new piece appears: the middle column of the top row.
    pub open spec fn spawn_position(self) -> Position {
        Position { x: (self.board.width / 2) as i32, y: 0 }
    }

    /// The state after a piece of `shape` was brought in and `following` was
    /// put in the queue behind it. No piece falls before; the keys are
    /// released, but for the memory of the hard-drop key. Where the new
    /// piece does not fit, the game is over and no piece falls.
    pub open spec fn placed(self, shape: TetrominoType, following: TetrominoType) -> SimModel {
        let piece = Tetromino { tetromino_type: shape, rotation: 0 };
        let position = self.spawn_position();
        let input = Input { hard_drop_released: self.input.hard_drop_released, ..Input::spec_default() };
        if self.board.valid(position, piece) {
            SimModel {
                active: Some(
                    ActivePiece { tetromino: piece, position, ghost_piece: GhostPiece { position } },
                ),
                next_tetromino: Some(following),
                input,
                ..self
            }
        } else {
            SimModel {
                game_state: GameState { game_over: true, ..self.game_state },
                active: None,
                next_tetromino: Some(following),
                input,
                ..self
            }
        }
    }

    /// The state after the next piece was spawned: the shape in the queue,
    /// or `fresh` if the queue is empty, comes in, and `following` takes its
    /// place in the queue.
    pub open spec fn spawned(self, fresh: TetrominoType, following: TetrominoType) -> SimModel {
        match self.next_tetromino {
            Some(shape) => self.placed(shape, following),
            None => self.placed(fresh, following),
        }
    }

    /// The state with the ghost of the falling piece brought up to date: in
    /// the piece's column, as far down as the piece can descend.
    pub open spec fn with_ghost(self) -> SimModel {
        match self.active {
            Some(piece) => SimModel {
                active: Some(
                    ActivePiece {
                        ghost_piece: GhostPiece {
                            position: lowered(
                                piece.position,
                                fall_distance(self.board, piece.position, piece.tetromino) as int,
                            ),
                        },
                        ..piece
                    },
                ),
                ..self
            },
            None => self,
        }
    }

    /// The outcome of locking `piece` at `position`: the T-spin rule is
    /// asked of the board as it is, the piece's cells go into the board, the
    /// completed lines are cleared, and the clear is scored, as a perfect
    /// clear if it took at least one line and left the board empty. No piece
    /// falls afterwards, and the next one is due.
    pub open spec fn after_lock(self, position: Position, piece: Tetromino) -> Outcome {
        Outcome {
            state: SimModel {
                board: self.board_after_lock(position, piece),
                game_state: self.score_after_lock(position, piece),
                active: None,
                ..self
            },
            report: ReportModel {
                events: lock_events(
                    self.board.width,
                    self.board.height,
                    position,
                    piece,
                    self.rows_of_lock(position, piece).len() as int,
                    spec_t_spin(self.board, position, piece),
                    self.perfect_lock(position, piece),
                ),
                cleared_rows: self.rows_of_lock(position, piece),
                needs_spawn: true,
            },
        }
    }

    /// The state in which `rows` more rows of hard drop wait to be paid.
    pub open spec fn with_hard_drop(self, rows: int) -> SimModel {
        SimModel { game_state: self.game_state.with_hard_drop(rows), ..self }
    }

    /// The outcome of a hard drop: the piece goes down as far as it can, the
    /// rows it travelled are added to the hard-drop distance, and the piece
    /// is locked there at once, as every lock is: its cells go into the
    /// board, the completed lines are cleared and the clear is scored, the
    /// distance of this drop included. The report is that of the lock with
    /// the hard-drop event at its end. Without a falling piece nothing
    /// happens.
    pub open spec fn after_hard_drop(self) -> Outcome {
        match self.active {
            Some(piece) => {
                let distance = fall_distance(self.board, piece.position, piece.tetromino);
                let landing = lowered(piece.position, distance as int);
                let locked = self.with_hard_drop(distance as int).after_lock(landing, piece.tetromino);
                Outcome {
                    state: locked.state,
                    report: ReportModel {
                        events: locked.report.events.push(
                            GameEvent::HardDrop { distance: distance as u32 },
                        ),
                        cleared_rows: locked.report.cleared_rows,
                        needs_spawn: true,
                    },
                }
            },
            None => self.idle(),
        }
    }

    /// The events of a piece that has just been moved or turned to
    /// `position`: while the grace period runs and the piece cannot descend,
    /// the grace hook fires.
    pub open spec fn grace_events(self, position: Position, piece: Tetromino) -> Seq<GameEvent> {
        if self.coyote_time.active && !self.board.valid(below(position), piece) {
            seq![GameEvent::CoyoteEnter { position, tetromino: piece }]
        } else {
            Seq::empty()
        }
    }

    /// The outcome of a move by `dx` columns: where the piece fits at the
    /// new position, it goes there and its ghost goes to the same column;
    /// otherwise nothing changes.
    pub open spec fn after_move(self, dx: int) -> Outcome {
        match self.active {
            Some(piece) => {
                let target = beside(piece.position, dx);
                if self.board.valid(target, piece.tetromino) {
                    Outcome {
                        state: SimModel {
                            active: Some(
                                ActivePiece {
                                    tetromino: piece.tetromino,
                                    position: target,
                                    ghost_piece: GhostPiece {
                                        position: Position {
                                            x: target.x,
                                            y: piece.ghost_piece.position.y,
                                        },
                                    },
                                },
                            ),
                            ..self
                        },
                        report: ReportModel {
                            events: self.grace_events(target, piece.tetromino),
                            cleared_rows: Seq::empty(),
                            needs_spawn: false,
                        },
                    }
                } else {
                    self.idle()
                }
            },
            None => self.idle(),
        }
    }

    /// The outcome of a soft drop: where the piece fits one row down, it
    /// goes there, the soft-drop distance goes up by one, the drop timer
    /// starts again and a running grace period ends; otherwise the piece is
    /// locked where it is.
    pub open spec fn after_soft_drop(self) -> Outcome {
        match self.active {
            Some(piece) => {
                if self.board.valid(below(piece.position), piece.tetromino) {
                    Outcome {
                        state: SimModel {
                            game_state: GameState {
                                soft_drop_distance: (self.game_state.soft_drop_distance + 1) as u32,
                                ..self.game_state
                            },
                            active: Some(ActivePiece { position: below(piece.position), ..piece }),
                            coyote_time: if self.coyote_time.active {
                                CoyoteTime { active: false, timer: 0 }
                            } else {
                                self.coyote_time
                            },
                            drop_timer: 0,
                            ..self
                        },
                        report: ReportModel::quiet(),
                    }
                } else {
                    self.after_lock(piece.position, piece.tetromino)
                }
            },
            None => self.idle(),
        }
    }

    /// The outcome of a rotation: where the piece fits in its next rotation
    /// state, it takes it; otherwise nothing changes.
    pub open spec fn after_rotate(self) -> Outcome {
        match self.active {
            Some(piece) => {
                let next = turned(piece.tetromino);
                if self.board.valid(piece.position, next) {
                    Outcome {
                        state: SimModel { active: Some(ActivePiece { tetromino: next, ..piece }), ..self },
                        report: ReportModel {
                            events: seq![GameEvent::Rotate { position: piece.position, tetromino: next }]
                                + self.grace_events(piece.position, next),
                            cleared_rows: Seq::empty(),
                            needs_spawn: false,
                        },
                    }
                } else {
                    self.idle()
                }
            },
            None => self.idle(),
        }
    }

    /// The outcome of the horizontal part of the input: a move to the left
    /// if the left key is held, else to the right if the right key is.
    pub open spec fn after_sideways_input(self) -> Outcome {
        if self.input.left {
            self.after_move(-1)
        } else if self.input.right {
            self.after_move(1)
        } else {
            self.idle()
        }
    }

    /// The outcome of applying the held keys. Nothing happens while the game
    /// is paused for a resize, while the screen shakes, or without a falling
    /// piece. A hard drop excludes everything else. Otherwise the piece
    /// moves sideways, then drops softly, then turns, each on the state that
    /// the one before left; a soft drop that locks the piece ends the step.
    pub open spec fn after_input(self) -> Outcome {
        if self.paused_for_resize || self.screen_shake_active || self.active is None {
            self.idle()
        } else if self.input.hard_drop {
            self.after_hard_drop()
        } else {
            let moved = self.after_sideways_input();
            let dropped = if self.input.down {
                moved.state.after_soft_drop()
            } else {
                moved.state.idle()
            };
            if dropped.report.needs_spawn {
                Outcome {
                    state: dropped.state,
                    report: ReportModel {
                        events: moved.report.events + dropped.report.events,
                        cleared_rows: dropped.report.cleared_rows,
                        needs_spawn: true,
                    },
                }
            } else {
                let rotated = if self.input.rotate {
                    dropped.state.after_rotate()
                } else {
                    dropped.state.idle()
                };
                Outcome {
                    state: rotated.state,
                    report: ReportModel {
                        events: moved.report.events + dropped.report.events + rotated.report.events,
                        cleared_rows: Seq::empty(),
                        needs_spawn: false,
                    },
                }
            }
        }
    }

    /// The outcome of the end of the grace period: a piece that can descend
    /// after all goes one row down and the drop timer starts again; a piece
    /// that is still blocked is locked where it is.
    pub open spec fn after_grace_expiry(self) -> Outcome {
        let rested = SimModel { coyote_time: CoyoteTime { active: false, timer: 0 }, ..self };
        match rested.active {
            Some(piece) => {
                if rested.board.valid(below(piece.position), piece.tetromino) {
                    Outcome {
                        state: SimModel {
                            active: Some(ActivePiece { position: below(piece.position), ..piece }),
                            drop_timer: 0,
                            ..rested
                        },
                        report: ReportModel::quiet(),
                    }
                } else {
                    rested.after_lock(piece.position, piece.tetromino)
                }
            },
            None => rested.idle(),
        }
    }

    /// The outcome of an automatic descent that has come due: without a
    /// falling piece the next one is due; a piece that can descend goes one
    /// row down; a blocked piece enters its grace period.
    pub open spec fn after_gravity(self) -> Outcome {
        let due = SimModel { drop_timer: 0, ..self };
        match due.active {
            Some(piece) => {
                if due.board.valid(below(piece.position), piece.tetromino) {
                    Outcome {
                        state: SimModel {
                            active: Some(ActivePiece { position: below(piece.position), ..piece }),
                            ..due
                        },
                        report: ReportModel::quiet(),
                    }
                } else if !due.coyote_time.active {
                    Outcome {
                        state: SimModel { coyote_time: CoyoteTime { active: true, timer: 0 }, ..due },
                        report: ReportModel {
                            events: seq![
                                GameEvent::CoyoteEnter {
                                    position: piece.position,
                                    tetromino: piece.tetromino,
                                },
                            ],
                            cleared_rows: Seq::empty(),
                            needs_spawn: false,
                        },
                    }
                } else {
                    due.idle()
                }
            },
            None => Outcome {
                state: due,
                report: ReportModel { events: Seq::empty(), cleared_rows: Seq::empty(), needs_spawn: true },
            },
        }
    }

    /// The outcome of a logic step of `delta` microseconds. Nothing happens
    /// once the game is over. Otherwise the ghost is brought up to date.
    /// While the grace period runs, its timer advances and the drop timer
    /// rests; when it reaches the period's length, the period ends. While it
    /// does not run, its timer is zero and the drop timer advances; when that
    /// reaches the level's delay, an automatic descent is due.
    pub open spec fn after_tick(self, delta: u64) -> Outcome {
        if self.game_state.game_over {
            self.idle()
        } else {
            let shown = self.with_ghost();
            if shown.coyote_time.active {
                let timer = advanced(shown.coyote_time.timer, delta);
                if timer >= COYOTE_TIME_DURATION {
                    shown.after_grace_expiry()
                } else {
                    SimModel { coyote_time: CoyoteTime { active: true, timer }, ..shown }.idle()
                }
            } else {
                let waiting = SimModel {
                    coyote_time: CoyoteTime { active: false, timer: 0 },
                    drop_timer: advanced(shown.drop_timer, delta),
                    ..shown
                };
                if waiting.drop_timer >= drop_delay(waiting.game_state.level) {
                    waiting.after_gravity()
                } else {
                    waiting.idle()
                }
            }
        }
    }
}

/// With headroom the score can take the lock of any piece anywhere, also
/// after a hard drop of no more rows than the board is high.
pub proof fn lemma_headroom_lock(state: SimModel, dropped: int, position: Position, piece: Tetromino)
    requires
        state.board.wf(),
        state.has_headroom(),
        0 <= dropped <= state.board.height,
    ensures
        state.with_hard_drop(dropped).can_lock(position, piece),
        state.with_hard_drop(0) == state,
{
    let stacked = state.board.locked(position, piece);
    lemma_locked_wf(state.board, position, piece);
    lemma_full_rows(stacked, stacked.height);
    state.game_state.lemma_headroom_allows(
        state.board.height,
        dropped,
        state.rows_of_lock(position, piece).len() as usize,
        spec_t_spin(state.board, position, piece),
        state.perfect_lock(position, piece),
    );
}

/// A piece descends fewer rows than the board is high.
pub proof fn lemma_fall_steps_bound(board: Grid, position: Position, piece: Tetromino, limit: nat)
    ensures
        fall_steps(board, position, piece, limit) <= limit,
    decreases limit,
{
    if limit > 0 && board.valid(below(position), piece) {
        lemma_fall_steps_bound(board, below(position), piece, (limit - 1) as nat);
    }
}

/// With enough rows counted, a piece that fits where it starts descends to
/// the lowest position that it can reach: it fits at every row on the way,
/// and one row further down it does not.
proof fn lemma_fall_steps_land(board: Grid, position: Position, piece: Tetromino, limit: nat)
    requires
        board.wf(),
        board.height <= i32::MAX,
        board.valid(position, piece),
        limit >= board.height - position.y,
    ensures
        position.y + fall_steps(board, position, piece, limit) < board.height,
        forall|rows: int|
            0 <= rows <= fall_steps(board, position, piece, limit) ==> board.valid(
                #[trigger] lowered(position, rows),
                piece,
            ),
        !board.valid(
            lowered(position, fall_steps(board, position, piece, limit) as int + 1),
            piece,
        ),
    decreases limit,
{
    lemma_valid_origin(board, position, piece);
    let steps = fall_steps(board, position, piece, limit) as int;
    assert(lowered(position, 0) == position);
    assert(lowered(position, 1) == below(position));
    if board.valid(below(position), piece) {
        let next = below(position);
        lemma_valid_origin(board, next, piece);
        lemma_fall_steps_land(board, next, piece, (limit - 1) as nat);
        let rest = fall_steps(board, next, piece, (limit - 1) as nat) as int;
        assert(steps == rest + 1);
        assert forall|rows: int| 0 <= rows <= steps implies board.valid(
            #[trigger] lowered(position, rows),
            piece,
        ) by {
            if rows > 0 {
                assert(lowered(position, rows) == lowered(next, rows - 1));
            }
        }
        assert(lowered(position, steps + 1) == lowered(next, rest + 1));
    }
}

/// The fall distance of a piece that fits where it starts leads to the
/// lowest position that the piece can reach by going straight down: it fits
/// at every row on the way, and one row further down it does not.
pub proof fn lemma_fall_distance_lands(board: Grid, position: Position, piece: Tetromino)
    requires
        board.wf(),
        board.height <= i32::MAX,
        board.valid(position, piece),
    ensures
        position.y + fall_distance(board, position, piece) < board.height,
        forall|rows: int|
            0 <= rows <= fall_distance(board, position, piece) ==> board.valid(
                #[trigger] lowered(position, rows),
                piece,
            ),
        !board.valid(lowered(position, fall_distance(board, position, piece) as int + 1), piece),
{
    lemma_valid_origin(board, position, piece);
    lemma_fall_steps_land(board, position, piece, board.height as nat);
}

/// The ghost stands in the column of the falling piece, on a position
/// where the piece fits, and the piece does not fit one row below it.
pub proof fn lemma_ghost_marks_the_landing(state: SimModel, piece: ActivePiece)
    requires
        state.wf(),
        state.active == Some(piece),
    ensures
        state.with_ghost().active matches Some(shown) && {
            &&& shown.position == piece.position
            &&& shown.tetromino == piece.tetromino
            &&& shown.ghost_piece.position.x == piece.position.x
            &&& shown.ghost_piece.position.y >= piece.position.y
            &&& state.board.valid(shown.ghost_piece.position, piece.tetromino)
            &&& !state.board.valid(below(shown.ghost_piece.position), piece.tetromino)
        },
{
    lemma_fall_distance_lands(state.board, piece.position, piece.tetromino);
    let distance = fall_distance(state.board, piece.position, piece.tetromino) as int;
    let landing = lowered(piece.position, distance);
    lemma_valid_origin(state.board, piece.position, piece.tetromino);
    assert(below(landing) == lowered(piece.position, distance + 1));
}

/// With headroom the counters can take any step: the held keys, and a logic
/// step of any length.
pub proof fn lemma_headroom_suffices(state: SimModel, delta: u64)
    requires
        state.wf(),
        state.has_headroom(),
    ensures
        state.input_fits(),
        state.tick_fits(delta),
{
    match state.active {
        Some(piece) => {
            lemma_fall_steps_bound(state.board, piece.position, piece.tetromino, state.board.height as nat);
            let distance = fall_distance(state.board, piece.position, piece.tetromino) as int;
            lemma_headroom_lock(state, 0, piece.position, piece.tetromino);
            lemma_headroom_lock(state, distance, lowered(piece.position, distance), piece.tetromino);
            let moved = state.after_sideways_input().state;
            match moved.active {
                Some(shifted) => {
                    lemma_headroom_lock(moved, 0, shifted.position, shifted.tetromino);
                },
                None => {},
            }
        },
        None => {},
    }
}

/// A blocked piece enters its grace period: when an automatic descent comes
/// due while no grace period runs and the falling piece cannot descend, the
/// step starts the period with its timer at zero, fires the grace hook, and
/// leaves the piece and the board as they are.
pub proof fn lemma_blocked_piece_enters_grace(state: SimModel, delta: u64, piece: ActivePiece)
    requires
        !state.game_state.game_over,
        state.active == Some(piece),
        !state.coyote_time.active,
        advanced(state.drop_timer, delta) >= drop_delay(state.game_state.level),
        !state.board.valid(below(piece.position), piece.tetromino),
    ensures
        state.after_tick(delta).state.coyote_time == (CoyoteTime { active: true, timer: 0 }),
        state.after_tick(delta).state.board == state.board,
        state.after_tick(delta).state.active == state.with_ghost().active,
        state.after_tick(delta).state.active matches Some(after) && after.position == piece.position
            && after.tetromino == piece.tetromino,
        state.after_tick(delta).report.events == seq![
            GameEvent::CoyoteEnter { position: piece.position, tetromino: piece.tetromino },
        ],
        !state.after_tick(delta).report.needs_spawn,
{
}

/// While the grace period runs and has not reached its length, a step only
/// advances its timer and the ghost: the piece is not locked, the board and
/// the drop timer stay.
pub proof fn lemma_grace_holds_the_lock(state: SimModel, delta: u64)
    requires
        !state.game_state.game_over,
        state.coyote_time.active,
        advanced(state.coyote_time.timer, delta) < COYOTE_TIME_DURATION,
    ensures
        state.after_tick(delta).state == (SimModel {
            coyote_time: CoyoteTime { active: true, timer: advanced(state.coyote_time.timer, delta) },
            ..state.with_ghost()
        }),
        state.after_tick(delta).report == ReportModel::quiet(),
{
}

/// A piece that is still blocked when its grace period has run for its full
/// length is locked where it stands: the step ends the period and its
/// outcome is that of the lock at the piece's position.
pub proof fn lemma_grace_expiry_locks(state: SimModel, delta: u64, piece: ActivePiece)
    requires
        !state.game_state.game_over,
        state.active == Some(piece),
        state.coyote_time.active,
        advanced(state.coyote_time.timer, delta) >= COYOTE_TIME_DURATION,
        !state.board.valid(below(piece.position), piece.tetromino),
    ensures
        state.after_tick(delta).state.board == state.board.locked(
            piece.position,
            piece.tetromino,
        ).cleared(),
        state.after_tick(delta).state.active is None,
        state.after_tick(delta).state.coyote_time == (CoyoteTime { active: false, timer: 0 }),
        state.after_tick(delta).report.events[0] == (GameEvent::Lock {
            position: piece.position,
            tetromino: piece.tetromino,
        }),
        state.after_tick(delta).report.needs_spawn,
        state.after_tick(delta) == (SimModel {
            coyote_time: CoyoteTime { active: false, timer: 0 },
            ..state.with_ghost()
        }).after_lock(piece.position, piece.tetromino),
{
}

/// A lock never lowers the score or the count of cleared lines, and leaves
/// the end of the game as it is.
pub proof fn lemma_lock_keeps_progress(state: SimModel, position: Position, piece: Tetromino)
    requires
        state.can_lock(position, piece),
    ensures
        state.after_lock(position, piece).state.game_state.score >= state.game_state.score,
        state.after_lock(position, piece).state.game_state.lines_cleared
            >= state.game_state.lines_cleared,
        state.after_lock(position, piece).state.game_state.game_over == state.game_state.game_over,
{
    lemma_scoring_keeps_progress(
        state.game_state,
        state.rows_of_lock(position, piece).len() as usize,
        spec_t_spin(state.board, position, piece),
        state.perfect_lock(position, piece),
    );
}

/// No step lowers the score or the count of cleared lines, and no step
/// takes back the end of the game: not the held keys, not a logic step, and
/// not the spawning of the next piece.
pub proof fn lemma_steps_keep_progress(
    state: SimModel,
    delta: u64,
    fresh: TetrominoType,
    following: TetrominoType,
)
    requires
        state.input_fits(),
        state.tick_fits(delta),
    ensures
        state.after_input().state.game_state.score >= state.game_state.score,
        state.after_input().state.game_state.lines_cleared >= state.game_state.lines_cleared,
        state.game_state.game_over ==> state.after_input().state.game_state.game_over,
        state.after_tick(delta).state.game_state.score >= state.game_state.score,
        state.after_tick(delta).state.game_state.lines_cleared >= state.game_state.lines_cleared,
        state.game_state.game_over ==> state.after_tick(delta).state.game_state.game_over,
        state.spawned(fresh, following).game_state.score == state.game_state.score,
        state.spawned(fresh, following).game_state.lines_cleared == state.game_state.lines_cleared,
        state.game_state.game_over ==> state.spawned(fresh, following).game_state.game_over,
{
    match state.active {
        Some(piece) => {
            if state.input.hard_drop && !state.paused_for_resize && !state.screen_shake_active {
                let distance = fall_distance(state.board, piece.position, piece.tetromino) as int;
                lemma_lock_keeps_progress(
                    state.with_hard_drop(distance),
                    lowered(piece.position, distance),
                    piece.tetromino,
                );
            }
            let moved = state.after_sideways_input().state;
            match moved.active {
                Some(shifted) => {
                    if state.input.down && !state.input.hard_drop && !state.paused_for_resize
                        && !state.screen_shake_active && !moved.board.valid(
                        below(shifted.position),
                        shifted.tetromino,
                    ) {
                        lemma_lock_keeps_progress(moved, shifted.position, shifted.tetromino);
                    }
                },
                None => {},
            }
            if !state.game_state.game_over && state.coyote_time.active && advanced(
                state.coyote_time.timer,
                delta,
            ) >= COYOTE_TIME_DURATION && !state.board.valid(below(piece.position), piece.tetromino) {
                let rested = SimModel {
                    coyote_time: CoyoteTime { active: false, timer: 0 },
                    ..state.with_ghost()
                };
                lemma_lock_keeps_progress(rested, piece.position, piece.tetromino);
            }
        },
        None => {},
    }
}

/// A rotation that does not fit leaves the piece's rotation state, and all
/// the rest, as it is.
pub proof fn lemma_blocked_rotation_keeps_state(state: SimModel, piece: ActivePiece)
    requires
        state.active == Some(piece),
        !state.board.valid(piece.position, turned(piece.tetromino)),
    ensures
        state.after_rotate().state == state,
        state.after_rotate().report == ReportModel::quiet(),
{
}

} // verus!
