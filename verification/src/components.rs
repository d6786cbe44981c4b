//! The pieces of state that the simulation is made of besides the board and
//! the score, and the events it reports.

use vstd::prelude::*;
use crate::board::as_ints;
use crate::piece::{Position, Tetromino};

verus! {

/// The keys that are held down in one logic step.
#[derive(Debug, Clone, Copy, PartialEq, Eq, Structural)]
pub struct Input {
    pub left: bool,
    pub right: bool,
    pub down: bool,
    pub rotate: bool,
    pub hard_drop: bool,
    pub hard_drop_released: bool,
    pub toggle_music: bool,
    pub volume_up: bool,
    pub volume_down: bool,
}

impl Input {
    /// No key is held.
    pub open spec fn spec_default() -> Input {
        Input {
            left: false,
            right: false,
            down: false,
            rotate: false,
            hard_drop: false,
            hard_drop_released: false,
            toggle_music: false,
            volume_up: false,
            volume_down: false,
        }
    }
}

impl Default for Input {
    fn default() -> (input: Input)
        ensures
            input == Input::spec_default(),
    {
        Input {
            left: false,
            right: false,
            down: false,
            rotate: false,
            hard_drop: false,
            hard_drop_released: false,
            toggle_music: false,
            volume_up: false,
            volume_down: false,
        }
    }
}

/// The grace period that delays the lock of a piece that has landed. `timer`
/// counts the microseconds since the period began.
#[derive(Debug, Clone, Copy, PartialEq, Eq, Structural)]
pub struct CoyoteTime {
    pub active: bool,
    pub timer: u64,
}

impl CoyoteTime {
    /// The period is not running.
    pub open spec fn spec_default() -> CoyoteTime {
        CoyoteTime { active: false, timer: 0 }
    }
}

impl Default for CoyoteTime {
    fn default() -> (coyote: CoyoteTime)
        ensures
            coyote == CoyoteTime::spec_default(),
    {
        CoyoteTime { active: false, timer: 0 }
    }
}

/// Where the falling piece would come to rest if it fell straight down.
#[derive(Debug, Clone, Copy, PartialEq, Eq, Structural)]
pub struct GhostPiece {
    pub position: Position,
}

/// The falling piece: its shape and rotation, where it is, and its ghost.
#[derive(Debug, Clone, Copy, PartialEq, Eq, Structural)]
pub struct ActivePiece {
    pub tetromino: Tetromino,
    pub position: Position,
    pub ghost_piece: GhostPiece,
}

/// Something that happened in a step and that the surroundings may want to
/// show or play.
#[derive(Debug, Clone, Copy, PartialEq, Eq, Structural)]
pub enum GameEvent {
    /// A piece was locked into the board at `position`.
    Lock { position: Position, tetromino: Tetromino },
    /// The falling piece at `position` was turned; `tetromino` is the piece
    /// after the turn.
    Rotate { position: Position, tetromino: Tetromino },
    /// `lines` completed lines were cleared from a board `board_width` wide
    /// by a lock that was a T-spin or was not. The report of the step lists
    /// their rows.
    LineClear { board_width: usize, lines: usize, is_t_spin: bool },
    /// A clear left the whole board empty.
    PerfectClear { width: usize, height: usize },
    /// The piece at `position` cannot descend while its grace period runs or
    /// begins.
    CoyoteEnter { position: Position, tetromino: Tetromino },
    /// A hard drop took the piece `distance` rows down.
    HardDrop { distance: u32 },
}

/// What a step reports as a mathematical value.
pub struct ReportModel {
    pub events: Seq<GameEvent>,
    pub cleared_rows: Seq<int>,
    pub needs_spawn: bool,
}

impl ReportModel {
    /// The report of a step in which nothing happened.
    pub open spec fn quiet() -> ReportModel {
        ReportModel { events: Seq::empty(), cleared_rows: Seq::empty(), needs_spawn: false }
    }
}

/// What a step reports: the events in the order in which they happened, the
/// rows of the lines that were cleared, as they were before anything moved,
/// and whether the step ended without a falling piece, so that the next one
/// is due.
#[derive(Debug, Clone)]
pub struct StepReport {
    pub events: Vec<GameEvent>,
    pub cleared_rows: Vec<usize>,
    pub needs_spawn: bool,
}

impl View for StepReport {
    type V = ReportModel;

    open spec fn view(&self) -> ReportModel {
        ReportModel {
            events: self.events@,
            cleared_rows: as_ints(self.cleared_rows@),
            needs_spawn: self.needs_spawn,
        }
    }
}

impl StepReport {
    /// The report of a step in which nothing happened.
    pub fn quiet() -> (report: StepReport)
        ensures
            report@ == ReportModel::quiet(),
    {
        let report = StepReport { events: Vec::new(), cleared_rows: Vec::new(), needs_spawn: false };
        assert(report@.cleared_rows =~= Seq::<int>::empty());
        report
    }
}

} // verus!
