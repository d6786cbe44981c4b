//! Tetromino geometry: the seven shapes, their cell offsets and rotation.

use vstd::prelude::*;

verus! {

/// One of the seven four-cell shapes.
#[derive(Debug, Clone, Copy, PartialEq, Eq, Structural)]
pub enum TetrominoType {
    I,
    J,
    L,
    O,
    S,
    T,
    Z,
}

/// Colour in which a shape is drawn and in which its cells stay on the board.
#[derive(Debug, Clone, Copy, PartialEq, Eq, Structural)]
pub enum PieceColor {
    Cyan,
    Blue,
    LightYellow,
    Yellow,
    Green,
    Magenta,
    Red,
}

/// A cell coordinate: `x` counts columns from the left, `y` rows from the top.
#[derive(Debug, Clone, Copy, PartialEq, Eq, Structural)]
pub struct Position {
    pub x: i32,
    pub y: i32,
}

/// A shape together with its rotation state.
#[derive(Debug, Clone, Copy, PartialEq, Eq, Structural)]
pub struct Tetromino {
    pub tetromino_type: TetrominoType,
    pub rotation: usize,
}

/// The shape that a drawn number stands for: 0 to 5 pick `I` to `T`, every
/// other number picks `Z`.
pub open spec fn shape_of_index(index: u8) -> TetrominoType {
    if index == 0 {
        TetrominoType::I
    } else if index == 1 {
        TetrominoType::J
    } else if index == 2 {
        TetrominoType::L
    } else if index == 3 {
        TetrominoType::O
    } else if index == 4 {
        TetrominoType::S
    } else if index == 5 {
        TetrominoType::T
    } else {
        TetrominoType::Z
    }
}

/// The image of one offset under a rotation state: state 1 maps `(x, y)` to
/// `(-y, x)`, state 2 to `(-x, -y)`, state 3 to `(y, -x)`; any other state
/// leaves it as it is.
pub open spec fn rotate_offset(rotation: usize, offset: (i32, i32)) -> (i32, i32) {
    if rotation == 1 {
        ((-offset.1) as i32, offset.0)
    } else if rotation == 2 {
        ((-offset.0) as i32, (-offset.1) as i32)
    } else if rotation == 3 {
        (offset.1, (-offset.0) as i32)
    } else {
        offset
    }
}

/// Calls `fastrand::u8` with the range `0..7`. The range is not empty, so the
/// call does not panic; the number it returns lies in that range, and which
/// one it is depends on the generator's state.
#[verifier::external_body]
fn draw_shape_index() -> (index: u8)
    ensures
        index < 7,
{
    fastrand::u8(0..7)
}

impl TetrominoType {
    /// The four cell offsets of the shape in rotation state 0.
    pub open spec fn spec_blocks(self) -> Seq<(i32, i32)> {
        match self {
            TetrominoType::I => seq![(0i32, 0i32), (0i32, 1i32), (0i32, 2i32), (0i32, 3i32)],
            TetrominoType::J => seq![(0i32, 0i32), (0i32, 1i32), (0i32, 2i32), (-1i32, 2i32)],
            TetrominoType::L => seq![(0i32, 0i32), (0i32, 1i32), (0i32, 2i32), (1i32, 2i32)],
            TetrominoType::O => seq![(0i32, 0i32), (0i32, 1i32), (1i32, 0i32), (1i32, 1i32)],
            TetrominoType::S => seq![(0i32, 0i32), (0i32, 1i32), (1i32, 1i32), (1i32, 2i32)],
            TetrominoType::T => seq![(0i32, 0i32), (0i32, 1i32), (0i32, 2i32), (1i32, 1i32)],
            TetrominoType::Z => seq![(0i32, 0i32), (0i32, 1i32), (-1i32, 1i32), (-1i32, 2i32)],
        }
    }

    /// The colour of the shape.
    pub open spec fn spec_color(self) -> PieceColor {
        match self {
            TetrominoType::I => PieceColor::Cyan,
            TetrominoType::J => PieceColor::Blue,
            TetrominoType::L => PieceColor::LightYellow,
            TetrominoType::O => PieceColor::Yellow,
            TetrominoType::S => PieceColor::Green,
            TetrominoType::T => PieceColor::Magenta,
            TetrominoType::Z => PieceColor::Red,
        }
    }

    /// Every shape has four offsets, the first of them `(0, 0)`, and each
    /// component lies between -1 and 3.
    pub proof fn lemma_blocks_small(self)
        ensures
            self.spec_blocks().len() == 4,
            self.spec_blocks()[0] == (0i32, 0i32),
            forall|i: int|
                0 <= i < 4 ==> -1 <= (#[trigger] self.spec_blocks()[i]).0 <= 3 && -1
                    <= self.spec_blocks()[i].1 <= 3,
    {
    }

    /// The shape for a drawn number.
    pub fn from_index(index: u8) -> (shape: TetrominoType)
        ensures
            shape == shape_of_index(index),
    {
        if index == 0 {
            TetrominoType::I
        } else if index == 1 {
            TetrominoType::J
        } else if index == 2 {
            TetrominoType::L
        } else if index == 3 {
            TetrominoType::O
        } else if index == 4 {
            TetrominoType::S
        } else if index == 5 {
            TetrominoType::T
        } else {
            TetrominoType::Z
        }
    }

    /// A shape drawn uniformly from the seven. Any of them may come back.
    #[must_use]
    pub fn random() -> (shape: TetrominoType)
        ensures
            exists|index: u8| index < 7 && shape == shape_of_index(index),
    {
        let index: u8 = draw_shape_index();
        TetrominoType::from_index(index)
    }

    /// The four cell offsets of the shape in rotation state 0.
    #[must_use]
    pub fn get_blocks(self) -> (blocks: Vec<(i32, i32)>)
        ensures
            blocks@ == self.spec_blocks(),
    {
        let blocks = match self {
            TetrominoType::I => vec![(0i32, 0i32), (0i32, 1i32), (0i32, 2i32), (0i32, 3i32)],
            TetrominoType::J => vec![(0i32, 0i32), (0i32, 1i32), (0i32, 2i32), (-1i32, 2i32)],
            TetrominoType::L => vec![(0i32, 0i32), (0i32, 1i32), (0i32, 2i32), (1i32, 2i32)],
            TetrominoType::O => vec![(0i32, 0i32), (0i32, 1i32), (1i32, 0i32), (1i32, 1i32)],
            TetrominoType::S => vec![(0i32, 0i32), (0i32, 1i32), (1i32, 1i32), (1i32, 2i32)],
            TetrominoType::T => vec![(0i32, 0i32), (0i32, 1i32), (0i32, 2i32), (1i32, 1i32)],
            TetrominoType::Z => vec![(0i32, 0i32), (0i32, 1i32), (-1i32, 1i32), (-1i32, 2i32)],
        };
        assert(blocks@ =~= self.spec_blocks());
        blocks
    }

    /// The colour of the shape.
    #[must_use]
    pub fn get_color(self) -> (color: PieceColor)
        ensures
            color == self.spec_color(),
    {
        match self {
            TetrominoType::I => PieceColor::Cyan,
            TetrominoType::J => PieceColor::Blue,
            TetrominoType::L => PieceColor::LightYellow,
            TetrominoType::O => PieceColor::Yellow,
            TetrominoType::S => PieceColor::Green,
            TetrominoType::T => PieceColor::Magenta,
            TetrominoType::Z => PieceColor::Red,
        }
    }
}

impl Tetromino {
    /// The four cell offsets of the piece in its rotation state.
    pub open spec fn spec_blocks(self) -> Seq<(i32, i32)> {
        Seq::new(4, |i: int| rotate_offset(self.rotation, self.tetromino_type.spec_blocks()[i]))
    }

    /// Every piece has four offsets, the first of them `(0, 0)`, and each
    /// component lies between -3 and 3.
    pub proof fn lemma_blocks_small(self)
        ensures
            self.spec_blocks().len() == 4,
            self.spec_blocks()[0] == (0i32, 0i32),
            forall|i: int|
                0 <= i < 4 ==> -3 <= (#[trigger] self.spec_blocks()[i]).0 <= 3 && -3
                    <= self.spec_blocks()[i].1 <= 3,
    {
        self.tetromino_type.lemma_blocks_small();
    }

    /// A piece of the given shape in rotation state 0.
    #[must_use]
    pub fn new(tetromino_type: TetrominoType) -> (piece: Tetromino)
        ensures
            piece.tetromino_type == tetromino_type,
            piece.rotation == 0,
    {
        Tetromino { tetromino_type, rotation: 0 }
    }

    /// The four cell offsets of the piece in its rotation state.
    #[must_use]
    pub fn get_blocks(self) -> (blocks: Vec<(i32, i32)>)
        requires
            self.rotation < 4,
        ensures
            blocks@ == self.spec_blocks(),
    {
        let base = self.tetromino_type.get_blocks();
        proof {
            self.tetromino_type.lemma_blocks_small();
        }
        let mut blocks: Vec<(i32, i32)> = Vec::new();
        let mut i: usize = 0;
        while i < 4
            invariant
                i <= 4,
                self.rotation < 4,
                base@ == self.tetromino_type.spec_blocks(),
                base@.len() == 4,
                forall|k: int| 0 <= k < 4 ==> -1 <= (#[trigger] base@[k]).0 <= 3 && -1 <= base@[k].1 <= 3,
                blocks@.len() == i,
                forall|k: int| 0 <= k < i ==> blocks@[k] == rotate_offset(self.rotation, base@[k]),
            decreases 4 - i,
        {
            let (x, y) = base[i];
            let turned = if self.rotation == 1 {
                (-y, x)
            } else if self.rotation == 2 {
                (-x, -y)
            } else if self.rotation == 3 {
                (y, -x)
            } else {
                (x, y)
            };
            blocks.push(turned);
            i += 1;
        }
        assert(blocks@ =~= self.spec_blocks());
        blocks
    }

    /// Turns the piece to its next rotation state.
    pub fn rotate(&mut self)
        requires
            old(self).rotation < usize::MAX,
        ensures
            final(self).rotation == (old(self).rotation + 1) % 4,
            final(self).tetromino_type == old(self).tetromino_type,
    {
        self.rotation = (self.rotation + 1) % 4;
    }
}

} // verus!
