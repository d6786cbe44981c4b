//! The board: a grid of locked cells with occupancy checks, locking and
//! line clearing.

use vstd::prelude::*;
use crate::piece::{Position, Tetromino, TetrominoType};

verus! {

/// Whether one of the first `count` cells of a piece placed at `position`
/// is the cell `(x, y)`.
pub open spec fn covers_upto(position: Position, piece: Tetromino, count: int, x: int, y: int) -> bool {
    exists|k: int|
        0 <= k < count && position.x + (#[trigger] piece.spec_blocks()[k]).0 == x && position.y
            + piece.spec_blocks()[k].1 == y
}

/// Whether a piece placed at `position` occupies the cell `(x, y)`.
pub open spec fn covers(position: Position, piece: Tetromino, x: int, y: int) -> bool {
    covers_upto(position, piece, 4, x, y)
}

/// The row indices of a vector as mathematical integers.
pub open spec fn as_ints(rows: Seq<usize>) -> Seq<int> {
    Seq::new(rows.len(), |k: int| rows[k] as int)
}

/// A board as a mathematical value. `cells[x][y]` is the cell in column `x`
/// and row `y`; row 0 is the top row.
pub struct Grid {
    pub width: int,
    pub height: int,
    pub cells: Seq<Seq<Option<TetrominoType>>>,
}

impl Grid {
    /// The grid holds `width` columns of `height` cells each.
    pub open spec fn wf(self) -> bool {
        &&& 0 <= self.width
        &&& 0 <= self.height
        &&& self.cells.len() == self.width
        &&& forall|x: int| 0 <= x < self.width ==> (#[trigger] self.cells[x]).len() == self.height
    }

    /// Whether `(x, y)` names a cell of the grid.
    pub open spec fn in_bounds(self, x: int, y: int) -> bool {
        0 <= x < self.width && 0 <= y < self.height
    }

    /// Whether `(x, y)` is a cell of the grid that holds nothing.
    pub open spec fn is_free(self, x: int, y: int) -> bool {
        self.in_bounds(x, y) && self.cells[x][y] is None
    }

    /// Whether `(x, y)` lies outside the grid or holds a locked cell.
    pub open spec fn is_blocked(self, x: int, y: int) -> bool {
        !self.in_bounds(x, y) || self.cells[x][y] is Some
    }

    /// Whether every cell of the piece placed at `position` is a free cell of
    /// the grid.
    pub open spec fn valid(self, position: Position, piece: Tetromino) -> bool {
        forall|k: int|
            0 <= k < 4 ==> self.is_free(
                position.x + (#[trigger] piece.spec_blocks()[k]).0,
                position.y + piece.spec_blocks()[k].1,
            )
    }

    /// Whether every cell of row `y` is occupied.
    pub open spec fn row_full(self, y: int) -> bool {
        forall|x: int| 0 <= x < self.width ==> (#[trigger] self.cells[x])[y] is Some
    }

    /// The indices of the fully occupied rows among the first `count` rows,
    /// in ascending order.
    pub open spec fn full_rows(self, count: int) -> Seq<int>
        decreases count,
    {
        if count <= 0 {
            Seq::empty()
        } else if self.row_full(count - 1) {
            self.full_rows(count - 1).push(count - 1)
        } else {
            self.full_rows(count - 1)
        }
    }

    /// Whether no cell of the grid is occupied.
    pub open spec fn is_empty(self) -> bool {
        forall|x: int, y: int| self.in_bounds(x, y) ==> (#[trigger] self.cells[x][y]) is None
    }

    /// The grid with `value` in the cell `(x, y)`.
    pub open spec fn with_cell(self, x: int, y: int, value: Option<TetrominoType>) -> Grid {
        Grid { cells: self.cells.update(x, self.cells[x].update(y, value)), ..self }
    }

    /// The grid after the cells that the piece occupies took the piece's
    /// shape. Cells of the piece outside the grid leave no trace.
    pub open spec fn locked(self, position: Position, piece: Tetromino) -> Grid {
        Grid {
            cells: Seq::new(
                self.cells.len(),
                |x: int|
                    Seq::new(
                        self.cells[x].len(),
                        |y: int|
                            if covers(position, piece, x, y) {
                                Some(piece.tetromino_type)
                            } else {
                                self.cells[x][y]
                            },
                    ),
            ),
            ..self
        }
    }

    /// The grid after row `row` was taken out: every row above it moved down
    /// by one, the rows below it stayed, and the top row is empty.
    pub open spec fn remove_row(self, row: int) -> Grid {
        Grid {
            cells: Seq::new(
                self.cells.len(),
                |x: int|
                    Seq::new(
                        self.cells[x].len(),
                        |y: int|
                            if y == 0 {
                                None
                            } else if y <= row {
                                self.cells[x][y - 1]
                            } else {
                                self.cells[x][y]
                            },
                    ),
            ),
            ..self
        }
    }

    /// The grid after the rows of `rows` were taken out one after the other,
    /// the last of the sequence first. Each index is applied to the grid as
    /// it is at that moment, so an index names the row that has meanwhile
    /// moved there.
    pub open spec fn compact(self, rows: Seq<int>) -> Grid
        decreases rows.len(),
    {
        if rows.len() == 0 {
            self
        } else {
            self.remove_row(rows.last()).compact(rows.drop_last())
        }
    }

    /// The grid after its completed lines were cleared.
    pub open spec fn cleared(self) -> Grid {
        self.compact(self.full_rows(self.height))
    }
}

/// A piece that fits at a position has its origin on the board.
pub proof fn lemma_valid_origin(grid: Grid, position: Position, piece: Tetromino)
    requires
        grid.valid(position, piece),
    ensures
        grid.is_free(position.x as int, position.y as int),
        forall|k: int|
            0 <= k < 4 ==> grid.in_bounds(
                position.x + (#[trigger] piece.spec_blocks()[k]).0,
                position.y + piece.spec_blocks()[k].1,
            ),
{
    piece.lemma_blocks_small();
    assert(grid.is_free(position.x + piece.spec_blocks()[0].0, position.y + piece.spec_blocks()[0].1));
}

/// Locking a piece keeps the grid's size and shape.
pub proof fn lemma_locked_wf(grid: Grid, position: Position, piece: Tetromino)
    requires
        grid.wf(),
    ensures
        grid.locked(position, piece).wf(),
        grid.locked(position, piece).width == grid.width,
        grid.locked(position, piece).height == grid.height,
{
}

/// Clearing rows keeps the grid's size and shape.
pub proof fn lemma_compact_wf(grid: Grid, rows: Seq<int>)
    requires
        grid.wf(),
    ensures
        grid.compact(rows).wf(),
        grid.compact(rows).width == grid.width,
        grid.compact(rows).height == grid.height,
    decreases rows.len(),
{
    if rows.len() > 0 {
        lemma_compact_wf(grid.remove_row(rows.last()), rows.drop_last());
    }
}

/// The completed rows among the first `count` are at most `count`, ascend,
/// and are exactly the rows below `count` that are full.
pub proof fn lemma_full_rows(grid: Grid, count: int)
    requires
        0 <= count,
    ensures
        grid.full_rows(count).len() <= count,
        forall|k: int|
            0 <= k < grid.full_rows(count).len() ==> 0 <= (#[trigger] grid.full_rows(count)[k]) < count
                && grid.row_full(grid.full_rows(count)[k]),
        forall|i: int, j: int|
            0 <= i < j < grid.full_rows(count).len() ==> (#[trigger] grid.full_rows(count)[i]) < (
            #[trigger] grid.full_rows(count)[j]),
        forall|y: int| 0 <= y < count && grid.row_full(y) ==> grid.full_rows(count).contains(y),
    decreases count,
{
    if count > 0 {
        lemma_full_rows(grid, count - 1);
        let shorter = grid.full_rows(count - 1);
        let rows = grid.full_rows(count);
        if grid.row_full(count - 1) {
            assert(rows[rows.len() - 1] == count - 1);
            assert forall|y: int| 0 <= y < count && grid.row_full(y) implies rows.contains(y) by {
                if y < count - 1 {
                    let k = choose|k: int| 0 <= k < shorter.len() && shorter[k] == y;
                    assert(rows[k] == y);
                } else {
                    assert(rows[rows.len() - 1] == y);
                }
            }
        }
    }
}

/// Where `row` is the only completed row among the first `count`, it alone
/// is listed once `count` has passed it.
proof fn lemma_full_rows_single(grid: Grid, row: int, count: int)
    requires
        0 <= row,
        0 <= count,
        grid.row_full(row),
        forall|y: int| 0 <= y < count && y != row ==> !grid.row_full(y),
    ensures
        grid.full_rows(count) == if count > row {
            seq![row]
        } else {
            Seq::<int>::empty()
        },
    decreases count,
{
    if count > 0 {
        lemma_full_rows_single(grid, row, count - 1);
        if count - 1 == row {
            assert(grid.full_rows(count) =~= seq![row]);
        }
    }
}

/// A board without a completed row is left as it is by a clear.
pub proof fn lemma_clear_nothing(grid: Grid)
    requires
        grid.wf(),
        forall|y: int| 0 <= y < grid.height ==> !grid.row_full(y),
    ensures
        grid.full_rows(grid.height).len() == 0,
        grid.cleared() == grid,
{
    lemma_full_rows(grid, grid.height);
    let rows = grid.full_rows(grid.height);
    if rows.len() > 0 {
        assert(grid.row_full(rows[0]));
    }
}

/// On a board without columns every row counts as complete and holds no
/// cell: the clear reports every row and leaves the board as it is.
pub proof fn lemma_clear_without_columns(grid: Grid)
    requires
        grid.wf(),
        grid.width == 0,
    ensures
        grid.full_rows(grid.height).len() == grid.height,
        grid.cleared() == grid,
{
    lemma_full_rows_all(grid, grid.height);
    lemma_compact_wf(grid, grid.full_rows(grid.height));
    assert(grid.cleared().cells =~= grid.cells);
}

/// Where every row is complete, each of the first `count` rows is listed.
proof fn lemma_full_rows_all(grid: Grid, count: int)
    requires
        0 <= count,
        forall|y: int| 0 <= y < count ==> grid.row_full(y),
    ensures
        grid.full_rows(count).len() == count,
    decreases count,
{
    if count > 0 {
        lemma_full_rows_all(grid, count - 1);
    }
}

/// A board with exactly one completed row: the clear reports that row and
/// no other; afterwards the top row is empty, every row above the completed
/// one has moved down by one, every row below it is where it was, and, on a
/// board with at least one column, no row is complete.
pub proof fn lemma_clear_single_row(grid: Grid, row: int)
    requires
        grid.wf(),
        0 <= row < grid.height,
        grid.row_full(row),
        forall|y: int| 0 <= y < grid.height && y != row ==> !grid.row_full(y),
    ensures
        grid.full_rows(grid.height) == seq![row],
        grid.cleared().wf(),
        grid.cleared().width == grid.width,
        grid.cleared().height == grid.height,
        forall|x: int| 0 <= x < grid.width ==> (#[trigger] grid.cleared().cells[x])[0] is None,
        forall|x: int, y: int|
            0 <= x < grid.width && 1 <= y <= row ==> #[trigger] grid.cleared().cells[x][y]
                == grid.cells[x][y - 1],
        forall|x: int, y: int|
            0 <= x < grid.width && row < y < grid.height ==> #[trigger] grid.cleared().cells[x][y]
                == grid.cells[x][y],
        grid.width > 0 ==> forall|y: int| 0 <= y < grid.height ==> !grid.cleared().row_full(y),
{
    lemma_full_rows_single(grid, row, grid.height);
    let rows = seq![row];
    assert(rows.drop_last() =~= Seq::<int>::empty());
    assert(rows.last() == row);
    let after = grid.remove_row(row);
    assert(grid.compact(rows) == after.compact(rows.drop_last()));
    assert(after.compact(Seq::<int>::empty()) == after);
    assert(grid.cleared() == after);
    if grid.width > 0 {
        assert forall|y: int| 0 <= y < grid.height implies !after.row_full(y) by {
            if y == 0 {
                assert(after.cells[0][0] is None);
            } else {
                let source = if y <= row {
                    y - 1
                } else {
                    y
                };
                assert(!grid.row_full(source));
                let x = choose|x: int| 0 <= x < grid.width && (#[trigger] grid.cells[x])[source] is None;
                assert(after.cells[x][y] == grid.cells[x][source]);
            }
        }
    }
}

/// The playing field. `cells[x][y]` is the cell in column `x` and row `y`;
/// row 0 is the top row.
#[derive(Debug, Clone)]
pub struct Board {
    pub width: usize,
    pub height: usize,
    pub cells: Vec<Vec<Option<TetrominoType>>>,
}

impl View for Board {
    type V = Grid;

    open spec fn view(&self) -> Grid {
        Grid {
            width: self.width as int,
            height: self.height as int,
            cells: Seq::new(self.cells@.len(), |x: int| self.cells@[x]@),
        }
    }
}

impl Board {
    /// The board holds `width` columns of `height` cells each.
    pub open spec fn wf(&self) -> bool {
        &&& self.cells@.len() == self.width
        &&& forall|x: int| 0 <= x < self.width ==> (#[trigger] self.cells@[x])@.len() == self.height
    }

    /// Writes `value` into the cell `(x, y)` and leaves every other cell.
    fn set_cell(&mut self, x: usize, y: usize, value: Option<TetrominoType>)
        requires
            old(self).wf(),
            x < old(self).width,
            y < old(self).height,
        ensures
            final(self).wf(),
            final(self).width == old(self).width,
            final(self).height == old(self).height,
            final(self)@ == old(self)@.with_cell(x as int, y as int, value),
    {
        self.cells[x][y] = value;
        assert(self@.cells =~~= old(self)@.with_cell(x as int, y as int, value).cells);
    }

    /// An empty board of the given size.
    #[must_use]
    pub fn new(width: usize, height: usize) -> (board: Board)
        ensures
            board.wf(),
            board.width == width,
            board.height == height,
            board@.is_empty(),
    {
        let mut cells: Vec<Vec<Option<TetrominoType>>> = Vec::new();
        let mut x: usize = 0;
        while x < width
            invariant
                x <= width,
                cells@.len() == x,
                forall|i: int| 0 <= i < x ==> (#[trigger] cells@[i])@.len() == height,
                forall|i: int, j: int| 0 <= i < x && 0 <= j < height ==> (#[trigger] cells@[i]@[j]) is None,
            decreases width - x,
        {
            let mut column: Vec<Option<TetrominoType>> = Vec::new();
            let mut y: usize = 0;
            while y < height
                invariant
                    y <= height,
                    column@.len() == y,
                    forall|j: int| 0 <= j < y ==> (#[trigger] column@[j]) is None,
                decreases height - y,
            {
                column.push(None);
                y += 1;
            }
            cells.push(column);
            x += 1;
        }
        Board { width, height, cells }
    }

    /// Empties every cell.
    pub fn clear(&mut self)
        requires
            old(self).wf(),
        ensures
            final(self).wf(),
            final(self).width == old(self).width,
            final(self).height == old(self).height,
            final(self)@.is_empty(),
    {
        let mut x: usize = 0;
        while x < self.width
            invariant
                self.wf(),
                self.width == old(self).width,
                self.height == old(self).height,
                x <= self.width,
                forall|i: int, j: int| 0 <= i < x && 0 <= j < self.height ==> (#[trigger] self@.cells[i][j]) is None,
            decreases self.width - x,
        {
            let mut y: usize = 0;
            while y < self.height
                invariant
                    self.wf(),
                    self.width == old(self).width,
                    self.height == old(self).height,
                    x < self.width,
                    y <= self.height,
                    forall|i: int, j: int| 0 <= i < x && 0 <= j < self.height ==> (#[trigger] self@.cells[i][j]) is None,
                    forall|j: int| 0 <= j < y ==> (#[trigger] self@.cells[x as int][j]) is None,
                decreases self.height - y,
            {
                self.set_cell(x, y, None);
                y += 1;
            }
            x += 1;
        }
    }

    /// Whether the piece fits at `position`: true exactly when each of its
    /// four cells lies on the board and is not occupied.
    #[must_use]
    pub fn is_valid_position(&self, position: Position, tetromino: &Tetromino) -> (valid: bool)
        requires
            self.wf(),
            tetromino.rotation < 4,
        ensures
            valid == self@.valid(position, *tetromino),
    {
        let blocks = tetromino.get_blocks();
        proof {
            tetromino.lemma_blocks_small();
        }
        let mut k: usize = 0;
        while k < 4
            invariant
                self.wf(),
                k <= 4,
                blocks@ == tetromino.spec_blocks(),
                blocks@.len() == 4,
                forall|i: int|
                    0 <= i < 4 ==> -3 <= (#[trigger] tetromino.spec_blocks()[i]).0 <= 3 && -3
                        <= tetromino.spec_blocks()[i].1 <= 3,
                forall|i: int|
                    0 <= i < k ==> self@.is_free(
                        position.x + (#[trigger] tetromino.spec_blocks()[i]).0,
                        position.y + tetromino.spec_blocks()[i].1,
                    ),
            decreases 4 - k,
        {
            let (block_x, block_y) = blocks[k];
            let x: i64 = position.x as i64 + block_x as i64;
            let y: i64 = position.y as i64 + block_y as i64;
            if x < 0 || y < 0 || x as u64 >= self.width as u64 || y as u64 >= self.height as u64 {
                assert(!self@.is_free(
                    position.x + tetromino.spec_blocks()[k as int].0,
                    position.y + tetromino.spec_blocks()[k as int].1,
                ));
                return false;
            }
            if self.cells[x as usize][y as usize].is_some() {
                assert(!self@.is_free(
                    position.x + tetromino.spec_blocks()[k as int].0,
                    position.y + tetromino.spec_blocks()[k as int].1,
                ));
                return false;
            }
            k += 1;
        }
        true
    }

    /// Writes the piece's shape into each of its cells that lies on the
    /// board; cells of the piece outside the board are skipped.
    pub fn lock_tetromino(&mut self, position: Position, tetromino: &Tetromino)
        requires
            old(self).wf(),
            tetromino.rotation < 4,
        ensures
            final(self).wf(),
            final(self).width == old(self).width,
            final(self).height == old(self).height,
            final(self)@ == old(self)@.locked(position, *tetromino),
    {
        let blocks = tetromino.get_blocks();
        proof {
            tetromino.lemma_blocks_small();
        }
        let mut k: usize = 0;
        while k < 4
            invariant
                self.wf(),
                self.width == old(self).width,
                self.height == old(self).height,
                old(self).wf(),
                k <= 4,
                blocks@ == tetromino.spec_blocks(),
                blocks@.len() == 4,
                forall|i: int|
                    0 <= i < 4 ==> -3 <= (#[trigger] tetromino.spec_blocks()[i]).0 <= 3 && -3
                        <= tetromino.spec_blocks()[i].1 <= 3,
                forall|x: int, y: int|
                    self@.in_bounds(x, y) ==> #[trigger] self@.cells[x][y] == if covers_upto(
                        position,
                        *tetromino,
                        k as int,
                        x,
                        y,
                    ) {
                        Some(tetromino.tetromino_type)
                    } else {
                        old(self)@.cells[x][y]
                    },
            decreases 4 - k,
        {
            let (block_x, block_y) = blocks[k];
            let x: i64 = position.x as i64 + block_x as i64;
            let y: i64 = position.y as i64 + block_y as i64;
            let ghost before = self@;
            if x >= 0 && y >= 0 && (x as u64) < self.width as u64 && (y as u64) < self.height as u64 {
                self.set_cell(x as usize, y as usize, Some(tetromino.tetromino_type));
            }
            assert forall|cx: int, cy: int| self@.in_bounds(cx, cy) implies #[trigger] self@.cells[cx][cy]
                == if covers_upto(position, *tetromino, k + 1, cx, cy) {
                Some(tetromino.tetromino_type)
            } else {
                old(self)@.cells[cx][cy]
            } by {
                let hit = position.x + tetromino.spec_blocks()[k as int].0 == cx && position.y
                    + tetromino.spec_blocks()[k as int].1 == cy;
                if hit {
                    assert(self@.cells[cx][cy] == Some(tetromino.tetromino_type));
                } else {
                    assert(self@.cells[cx][cy] == before.cells[cx][cy]);
                    assert(covers_upto(position, *tetromino, k + 1, cx, cy) == covers_upto(
                        position,
                        *tetromino,
                        k as int,
                        cx,
                        cy,
                    ));
                }
            }
            k += 1;
        }
        assert(self@.cells =~~= old(self)@.locked(position, *tetromino).cells);
    }

    /// Clears the completed lines. Returns how many there were and their
    /// indices, top row first, as they were before anything moved: exactly
    /// the rows in which every cell is occupied.
    ///
    /// The rows are taken out one at a time, the lowest of them first; each
    /// time the rows above the index move down by one and the top row is
    /// emptied.
    pub fn clear_lines_with_indices(&mut self) -> (result: (usize, Vec<usize>))
        requires
            old(self).wf(),
        ensures
            final(self).wf(),
            final(self).width == old(self).width,
            final(self).height == old(self).height,
            as_ints(result.1@) == old(self)@.full_rows(old(self).height as int),
            result.0 == result.1@.len(),
            result.0 <= old(self).height,
            forall|k: int|
                0 <= k < result.1@.len() ==> (#[trigger] result.1@[k]) < old(self).height && old(
                    self,
                )@.row_full(result.1@[k] as int),
            forall|i: int, j: int|
                0 <= i < j < result.1@.len() ==> (#[trigger] result.1@[i]) < (#[trigger] result.1@[j]),
            forall|y: int|
                0 <= y < old(self).height && old(self)@.row_full(y) ==> exists|k: int|
                    0 <= k < result.1@.len() && #[trigger] result.1@[k] == y,
            final(self)@ == old(self)@.cleared(),
    {
        let mut cleared_indices: Vec<usize> = Vec::new();
        let mut y: usize = 0;
        while y < self.height
            invariant
                self.wf(),
                *self == *old(self),
                y <= self.height,
                as_ints(cleared_indices@) == self@.full_rows(y as int),
                forall|k: int| 0 <= k < cleared_indices@.len() ==> (#[trigger] cleared_indices@[k]) < y,
            decreases self.height - y,
        {
            let mut is_line_full = true;
            let mut x: usize = 0;
            while x < self.width && is_line_full
                invariant
                    self.wf(),
                    y < self.height,
                    x <= self.width,
                    is_line_full ==> forall|i: int| 0 <= i < x ==> (#[trigger] self@.cells[i])[y as int] is Some,
                    !is_line_full ==> !self@.row_full(y as int),
                decreases self.width - x + if is_line_full { 1int } else { 0int },
            {
                if self.cells[x][y].is_none() {
                    is_line_full = false;
                    assert(self@.cells[x as int][y as int] is None);
                } else {
                    x += 1;
                }
            }
            if is_line_full {
                cleared_indices.push(y);
                assert(as_ints(cleared_indices@) =~= self@.full_rows(y as int).push(y as int));
            }
            y += 1;
        }
        let ghost rows = as_ints(cleared_indices@);
        let mut k: usize = cleared_indices.len();
        assert(rows.take(k as int) =~= rows);
        while k > 0
            invariant
                self.wf(),
                self.width == old(self).width,
                self.height == old(self).height,
                k <= cleared_indices@.len(),
                rows == as_ints(cleared_indices@),
                rows == old(self)@.full_rows(old(self).height as int),
                forall|i: int|
                    0 <= i < cleared_indices@.len() ==> (#[trigger] cleared_indices@[i]) < self.height,
                self@.compact(rows.take(k as int)) == old(self)@.compact(rows),
            decreases k,
        {
            let row: usize = cleared_indices[k - 1];
            let ghost before = self@;
            let mut x: usize = 0;
            while x < self.width
                invariant
                    self.wf(),
                    self.width == old(self).width,
                    self.height == old(self).height,
                    before.wf(),
                    before.width == self.width,
                    before.height == self.height,
                    x <= self.width,
                    row < self.height,
                    forall|i: int, j: int|
                        0 <= i < x && 0 <= j < self.height ==> #[trigger] self@.cells[i][j] == before.remove_row(row as int).cells[i][j],
                    forall|i: int, j: int|
                        x <= i < self.width && 0 <= j < self.height ==> #[trigger] self@.cells[i][j]
                            == before.cells[i][j],
                decreases self.width - x,
            {
                let mut y2: usize = row;
                while y2 > 0
                    invariant
                        self.wf(),
                        self.width == old(self).width,
                        self.height == old(self).height,
                        before.wf(),
                    before.width == self.width,
                    before.height == self.height,
                        x < self.width,
                        y2 <= row < self.height,
                        forall|i: int, j: int|
                            0 <= i < x && 0 <= j < self.height ==> #[trigger] self@.cells[i][j]
                                == before.remove_row(row as int).cells[i][j],
                        forall|i: int, j: int|
                            x < i < self.width && 0 <= j < self.height ==> #[trigger] self@.cells[i][j]
                                == before.cells[i][j],
                        forall|j: int|
                            y2 < j <= row ==> #[trigger] self@.cells[x as int][j] == before.cells[x as int][j - 1],
                        forall|j: int|
                            0 <= j < self.height && (j <= y2 || j > row) ==> #[trigger] self@.cells[x as int][j]
                                == before.cells[x as int][j],
                    decreases y2,
                {
                    let above = self.cells[x][y2 - 1];
                    self.set_cell(x, y2, above);
                    y2 -= 1;
                }
                self.set_cell(x, 0, None);
                x += 1;
            }
            assert(self@.cells =~~= before.remove_row(row as int).cells);
            assert(rows.take(k as int).last() == row as int);
            assert(rows.take(k as int).drop_last() =~= rows.take(k - 1));
            k -= 1;
        }
        assert(rows.take(0) =~= Seq::<int>::empty());
        proof {
            lemma_full_rows(old(self)@, old(self).height as int);
            assert forall|k: int| 0 <= k < cleared_indices@.len() implies old(self)@.row_full(
                (#[trigger] cleared_indices@[k]) as int,
            ) by {
                assert(rows[k] == cleared_indices@[k]);
            }
            assert forall|i: int, j: int| 0 <= i < j < cleared_indices@.len() implies (
            #[trigger] cleared_indices@[i]) < (#[trigger] cleared_indices@[j]) by {
                assert(rows[i] == cleared_indices@[i] && rows[j] == cleared_indices@[j]);
            }
            assert forall|y: int| 0 <= y < old(self).height && old(self)@.row_full(y) implies exists|
                k: int,
            |
                0 <= k < cleared_indices@.len() && #[trigger] cleared_indices@[k] == y by {
                assert(rows.contains(y));
                let k = choose|k: int| 0 <= k < rows.len() && rows[k] == y;
                assert(cleared_indices@[k] == y);
            }
        }
        (cleared_indices.len(), cleared_indices)
    }
}

} // verus!
