//! Sizes and places on the terminal screen, counted in character cells.

use vstd::prelude::*;
use crate::game::{BOARD_HEIGHT, BOARD_WIDTH};

verus! {

/// A rectangle of character cells: its upper left corner and its size.
#[derive(Debug, Clone, Copy, PartialEq, Eq, Structural)]
pub struct Area {
    pub x: u16,
    pub y: u16,
    pub width: u16,
    pub height: u16,
}

/// The smaller of two numbers.
pub open spec fn lesser(a: int, b: int) -> int {
    if a <= b {
        a
    } else {
        b
    }
}

/// What is left of `a` after taking `b` away, but never less than zero.
pub open spec fn remainder(a: int, b: int) -> int {
    if a >= b {
        a - b
    } else {
        0
    }
}

/// The width of one board cell in an area: an even number, at least 2. Each
/// side of the area gives up four cells as a margin; what is left is shared
/// by the ten columns, and by the twenty rows at two characters of width
/// for each character of height; the tighter of the two decides.
pub open spec fn spec_cell_width(area: Area) -> int {
    let by_width = remainder(area.width as int, 4) / 10;
    let by_height = (remainder(area.height as int, 4) / 20) * 2;
    let fitting = lesser(by_width, by_height);
    let at_least_two = if fitting >= 2 {
        fitting
    } else {
        2
    };
    (at_least_two / 2) * 2
}

/// The height of one board cell in an area: half its width.
pub open spec fn spec_cell_height(area: Area) -> int {
    spec_cell_width(area) / 2
}

/// Whether two rectangles have a cell in common.
pub open spec fn spec_overlaps(r1: Area, r2: Area) -> bool {
    r1.x < r2.x + r2.width && r1.x + r1.width > r2.x && r1.y < r2.y + r2.height && r1.y + r1.height
        > r2.y
}

/// The size at which the board is drawn in an area: the width and height of
/// the whole board with its border, and the width and height of one cell.
#[must_use]
pub fn calculate_responsive_board_size(area: Area) -> (size: (u16, u16, u16, u16))
    ensures
        size.2 == spec_cell_width(area),
        size.3 == spec_cell_height(area),
        size.0 == 10 * spec_cell_width(area) + 2,
        size.1 == 20 * spec_cell_height(area) + 2,
        size.2 >= 2,
        size.2 % 2 == 0,
        size.3 >= 1,
{
    let available_width: u16 = area.width.saturating_sub(4);
    let available_height: u16 = area.height.saturating_sub(4);

    let max_cell_width_by_width: u16 = available_width / BOARD_WIDTH as u16;
    let max_cell_height_by_height: u16 = available_height / BOARD_HEIGHT as u16;
    let max_cell_width_by_height: u16 = max_cell_height_by_height * 2;

    let fitting: u16 = if max_cell_width_by_width <= max_cell_width_by_height {
        max_cell_width_by_width
    } else {
        max_cell_width_by_height
    };
    let at_least_two: u16 = if fitting >= 2 {
        fitting
    } else {
        2
    };
    let cell_width: u16 = (at_least_two / 2) * 2;
    let half: u16 = cell_width / 2;
    let cell_height: u16 = if half >= 1 {
        half
    } else {
        1
    };

    let board_width: u16 = BOARD_WIDTH as u16 * cell_width + 2;
    let board_height: u16 = BOARD_HEIGHT as u16 * cell_height + 2;

    (board_width, board_height, cell_width, cell_height)
}

/// A rectangle of the given size in the middle of `r`, cut down to the size
/// of `r` where it is larger.
#[must_use]
pub fn centered_horizontal_rect(width: u16, height: u16, r: Area) -> (centered: Area)
    requires
        r.x + r.width <= u16::MAX,
        r.y + r.height <= u16::MAX,
    ensures
        centered.x == r.x + remainder(r.width as int, width as int) / 2,
        centered.y == r.y + remainder(r.height as int, height as int) / 2,
        centered.width == lesser(width as int, r.width as int),
        centered.height == lesser(height as int, r.height as int),
        centered.x + centered.width <= r.x + r.width,
        centered.y + centered.height <= r.y + r.height,
{
    let x: u16 = r.x + r.width.saturating_sub(width) / 2;
    let y: u16 = r.y + r.height.saturating_sub(height) / 2;
    Area {
        x,
        y,
        width: if width <= r.width {
            width
        } else {
            r.width
        },
        height: if height <= r.height {
            height
        } else {
            r.height
        },
    }
}

/// Whether two rectangles have a cell in common.
#[must_use]
pub fn overlaps(r1: Area, r2: Area) -> (common: bool)
    requires
        r1.x + r1.width <= u16::MAX,
        r1.y + r1.height <= u16::MAX,
        r2.x + r2.width <= u16::MAX,
        r2.y + r2.height <= u16::MAX,
    ensures
        common == spec_overlaps(r1, r2),
{
    r1.x < r2.x + r2.width && r1.x + r1.width > r2.x && r1.y < r2.y + r2.height && r1.y + r1.height
        > r2.y
}

} // verus!
