//! The simulation: one board, one falling piece at most, the score, and the
//! operations of a game step.

use vstd::prelude::*;
use crate::board::{lemma_valid_origin, Board};
use crate::components::{ActivePiece, CoyoteTime, GameEvent, GhostPiece, Input, StepReport};
use crate::model::{
    below, board_blocks, column_blocks, fall_distance, fall_steps, lowered, piece_blocks, SimModel,
};
use crate::piece::{Position, Tetromino, TetrominoType};
use crate::score::GameState;

verus! {

/// A game in progress. `next_tetromino` is the queue of one shape that
/// `spawn_tetromino` takes the next piece from; `drop_timer` counts the
/// microseconds since the last automatic descent.
#[derive(Debug, Clone)]
pub struct GameSimulation {
    pub board: Board,
    pub game_state: GameState,
    pub active: Option<ActivePiece>,
    pub next_tetromino: Option<TetrominoType>,
    pub coyote_time: CoyoteTime,
    pub drop_timer: u64,
    pub input: Input,
    pub paused_for_resize: bool,
    pub screen_shake_active: bool,
}

impl View for GameSimulation {
    type V = SimModel;

    open spec fn view(&self) -> SimModel {
        SimModel {
            board: self.board@,
            game_state: self.game_state,
            active: self.active,
            next_tetromino: self.next_tetromino,
            coyote_time: self.coyote_time,
            drop_timer: self.drop_timer,
            input: self.input,
            paused_for_resize: self.paused_for_resize,
            screen_shake_active: self.screen_shake_active,
        }
    }
}

impl GameSimulation {
    /// The board is well formed and no larger than a coordinate can say, and
    /// the falling piece, if there is one, lies on free cells of the board.
    pub open spec fn wf(&self) -> bool {
        self.board.wf() && self@.wf()
    }

    /// The board is well formed and no larger than a coordinate can say.
    pub open spec fn board_fits(&self) -> bool {
        self.board.wf() && self.board.width <= i32::MAX && self.board.height <= i32::MAX
    }

    /// A game on an empty board of the given size, with no piece falling
    /// yet, an empty queue and every counter at its start.
    #[must_use]
    pub fn new(width: usize, height: usize) -> (sim: GameSimulation)
        ensures
            sim.board.wf(),
            sim.board.width == width,
            sim.board.height == height,
            sim.board@.is_empty(),
            sim.game_state == GameState::spec_default(),
            sim.active is None,
            sim.next_tetromino is None,
            sim.coyote_time == CoyoteTime::spec_default(),
            sim.drop_timer == 0,
            sim.input == Input::spec_default(),
            !sim.paused_for_resize,
            !sim.screen_shake_active,
            width <= i32::MAX && height <= i32::MAX ==> sim.wf(),
    {
        GameSimulation {
            board: Board::new(width, height),
            game_state: GameState::default(),
            active: None,
            next_tetromino: None,
            coyote_time: CoyoteTime::default(),
            drop_timer: 0,
            input: Input::default(),
            paused_for_resize: false,
            screen_shake_active: false,
        }
    }

    /// Starts the game over on the same board: the board is emptied, no
    /// piece falls, the queue is empty, every counter and timer is at its
    /// start and no key is held.
    pub fn reset(&mut self)
        requires
            old(self).board.wf(),
        ensures
            final(self).board.wf(),
            final(self).board.width == old(self).board.width,
            final(self).board.height == old(self).board.height,
            final(self).board@.is_empty(),
            final(self).game_state == GameState::spec_default(),
            final(self).active is None,
            final(self).next_tetromino is None,
            final(self).coyote_time == CoyoteTime::spec_default(),
            final(self).drop_timer == 0,
            final(self).input == Input::spec_default(),
            !final(self).paused_for_resize,
            !final(self).screen_shake_active,
    {
        self.game_state = GameState::default();
        self.board.clear();
        self.active = None;
        self.next_tetromino = None;
        self.input = Input::default();
        self.screen_shake_active = false;
        self.paused_for_resize = false;
        self.coyote_time = CoyoteTime::default();
        self.drop_timer = 0;
    }

    /// Whether the state is well formed.
    #[must_use]
    pub fn is_well_formed(&self) -> (ok: bool)
        ensures
            ok == self.wf(),
    {
        if self.board.cells.len() != self.board.width {
            return false;
        }
        let mut x: usize = 0;
        while x < self.board.width
            invariant
                x <= self.board.width,
                self.board.cells@.len() == self.board.width,
                forall|i: int| 0 <= i < x ==> (#[trigger] self.board.cells@[i])@.len() == self.board.height,
            decreases self.board.width - x,
        {
            if self.board.cells[x].len() != self.board.height {
                return false;
            }
            x += 1;
        }
        if self.board.width > i32::MAX as usize || self.board.height > i32::MAX as usize {
            return false;
        }
        match self.active {
            Some(piece) => piece.tetromino.rotation < 4 && self.board.is_valid_position(
                piece.position,
                &piece.tetromino,
            ),
            None => true,
        }
    }

    /// Whether the counters have room for one more step. With room, and
    /// with a well-formed state, every operation's bounds are met.
    #[must_use]
    pub fn has_headroom(&self) -> (ok: bool)
        ensures
            ok == self@.has_headroom(),
    {
        self.game_state.has_headroom(self.board.height)
    }

    /// What there is to draw: the locked cells of the board, column by
    /// column from the left and from the top down, then the four cells of
    /// the falling piece, each with its position and its shape.
    #[must_use]
    pub fn get_render_blocks(&self) -> (blocks: Vec<(Position, TetrominoType)>)
        requires
            self.wf(),
        ensures
            blocks@ == self@.render_blocks(),
    {
        let mut blocks: Vec<(Position, TetrominoType)> = Vec::new();
        let mut x: usize = 0;
        while x < self.board.width
            invariant
                self.wf(),
                x <= self.board.width,
                blocks@ == board_blocks(self@.board, x as int),
            decreases self.board.width - x,
        {
            let ghost before = blocks@;
            let mut y: usize = 0;
            while y < self.board.height
                invariant
                    self.wf(),
                    x < self.board.width,
                    y <= self.board.height,
                    blocks@ == before + column_blocks(self@.board, x as int, y as int),
                decreases self.board.height - y,
            {
                if let Some(tetromino_type) = self.board.cells[x][y] {
                    blocks.push((Position { x: x as i32, y: y as i32 }, tetromino_type));
                }
                assert(blocks@ =~= before + column_blocks(self@.board, x as int, y + 1));
                y += 1;
            }
            x += 1;
        }
        if let Some(piece) = self.active {
            let offsets = piece.tetromino.get_blocks();
            proof {
                lemma_valid_origin(self@.board, piece.position, piece.tetromino);
            }
            let ghost locked = blocks@;
            let mut k: usize = 0;
            while k < 4
                invariant
                    self.wf(),
                    self.active == Some(piece),
                    k <= 4,
                    offsets@ == piece.tetromino.spec_blocks(),
                    offsets@.len() == 4,
                    blocks@.len() == locked.len() + k,
                    forall|i: int| 0 <= i < locked.len() ==> blocks@[i] == locked[i],
                    forall|i: int| 0 <= i < k ==> blocks@[locked.len() + i] == piece_blocks(piece)[i],
                    forall|i: int|
                        0 <= i < 4 ==> self@.board.in_bounds(
                            piece.position.x + (#[trigger] piece.tetromino.spec_blocks()[i]).0,
                            piece.position.y + piece.tetromino.spec_blocks()[i].1,
                        ),
                decreases 4 - k,
            {
                let (dx, dy) = offsets[k];
                let block_pos = Position { x: piece.position.x + dx, y: piece.position.y + dy };
                blocks.push((block_pos, piece.tetromino.tetromino_type));
                k += 1;
            }
            assert(blocks@ =~= locked + piece_blocks(piece));
        } else {
            assert(blocks@ =~= self@.render_blocks());
        }
        blocks
    }

    /// Brings in a piece of `shape` and puts `following` in the queue. Any
    /// piece that was falling is gone, and the keys are released, but for
    /// the memory of the hard-drop key. The piece appears in rotation state
    /// 0 in the middle column of the top row; where it does not fit there,
    /// the game is over and no piece falls.
    pub fn place_piece(&mut self, shape: TetrominoType, following: TetrominoType)
        requires
            old(self).board_fits(),
        ensures
            final(self)@ == old(self)@.placed(shape, following),
            final(self).wf(),
    {
        self.active = None;
        let was_hard_drop_released = self.input.hard_drop_released;
        self.input = Input::default();
        self.input.hard_drop_released = was_hard_drop_released;
        self.next_tetromino = Some(following);

        let tetromino = Tetromino::new(shape);
        let position = Position { x: (self.board.width / 2) as i32, y: 0 };
        if !self.board.is_valid_position(position, &tetromino) {
            self.game_state.game_over = true;
            return;
        }
        let ghost_piece = GhostPiece { position };
        self.active = Some(ActivePiece { tetromino, position, ghost_piece });
    }

    /// Whether the piece could go one row down from `position`.
    #[must_use]
    pub fn can_continue_falling(&self, position: Position, tetromino: &Tetromino) -> (free: bool)
        requires
            self.board.wf(),
            tetromino.rotation < 4,
            position.y < i32::MAX,
        ensures
            free == self@.board.valid(below(position), *tetromino),
    {
        let new_position = Position { x: position.x, y: position.y + 1 };
        self.board.is_valid_position(new_position, tetromino)
    }

    /// How many rows the piece can descend from `position`, where it fits,
    /// before it is blocked.
    #[must_use]
    pub fn drop_distance(&self, position: Position, tetromino: &Tetromino) -> (distance: u32)
        requires
            self.board_fits(),
            tetromino.rotation < 4,
            self@.board.valid(position, *tetromino),
        ensures
            distance == fall_distance(self@.board, position, *tetromino),
            position.y + distance < self.board.height,
            self@.board.valid(lowered(position, distance as int), *tetromino),
            !self@.board.valid(below(lowered(position, distance as int)), *tetromino),
            forall|rows: int|
                0 <= rows <= distance ==> self@.board.valid(#[trigger] lowered(position, rows), *tetromino),
    {
        let mut distance: u32 = 0;
        let mut test_y: i32 = position.y;
        let mut falling = true;
        proof {
            lemma_valid_origin(self@.board, position, *tetromino);
        }
        while falling
            invariant
                self.board_fits(),
                tetromino.rotation < 4,
                0 <= position.y,
                test_y == position.y + distance,
                test_y < self.board.height,
                forall|rows: int|
                    0 <= rows <= distance ==> self@.board.valid(
                        #[trigger] lowered(position, rows),
                        *tetromino,
                    ),
                fall_steps(self@.board, position, *tetromino, self.board.height as nat) == distance
                    + fall_steps(
                    self@.board,
                    lowered(position, distance as int),
                    *tetromino,
                    (self.board.height - distance) as nat,
                ),
                !falling ==> !self@.board.valid(below(lowered(position, distance as int)), *tetromino),
            decreases self.board.height - test_y + if falling { 1int } else { 0int },
        {
            let ghost current = lowered(position, distance as int);
            let candidate = Position { x: position.x, y: test_y + 1 };
            assert(candidate == below(current));
            if self.board.is_valid_position(candidate, tetromino) {
                proof {
                    lemma_valid_origin(self@.board, candidate, *tetromino);
                    assert(lowered(position, distance + 1) == candidate);
                }
                test_y += 1;
                distance += 1;
            } else {
                falling = false;
            }
        }
        distance
    }

    /// Brings the ghost of the falling piece up to date: it stands in the
    /// piece's column, as far down as the piece can descend.
    pub fn update_ghost_positions(&mut self)
        requires
            old(self).wf(),
        ensures
            final(self)@ == old(self)@.with_ghost(),
            final(self).wf(),
    {
        if let Some(piece) = self.active {
            let distance = self.drop_distance(piece.position, &piece.tetromino);
            let ghost_y: i32 = piece.position.y + distance as i32;
            self.active = Some(
                ActivePiece {
                    tetromino: piece.tetromino,
                    position: piece.position,
                    ghost_piece: GhostPiece { position: Position { x: piece.position.x, y: ghost_y } },
                },
            );
        }
    }
}

} // verus!
