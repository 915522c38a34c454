//! Where a pixel of the display goes in the window.

use vstd::prelude::*;

verus! {

/// Width of the window, in window pixels.
pub const WIN_WIDTH: u32 = 800;

/// Height of the window, in window pixels.
pub const WIN_HEIGHT: u32 = 400;

/// Width of one display pixel in the window.
pub const CELL_WIDTH: u32 = 12;

/// Height of one display pixel in the window.
pub const CELL_HEIGHT: u32 = 12;

/// A rectangle of the window.
#[derive(PartialEq, Eq, Copy, Clone, Debug, Structural)]
pub struct CellRect {
    pub x: i32,
    pub y: i32,
    pub width: u32,
    pub height: u32,
}

/// The window rectangle of the display pixel at `col`, `row`: cells of
/// `WIN_WIDTH / 64` by `WIN_HEIGHT / 32` window pixels, laid side by side
/// from the top left corner.
pub open spec fn cell_of(col: int, row: int) -> CellRect {
    CellRect {
        x: (col * (800int / 64)) as i32,
        y: (row * (400int / 32)) as i32,
        width: (800int / 64) as u32,
        height: (400int / 32) as u32,
    }
}

/// The window rectangle to fill for the display pixel at `col`, `row`.
pub fn cell_rect(col: u8, row: u8) -> (r: CellRect)
    ensures
        r == cell_of(col as int, row as int),
{
    let cell_width = WIN_WIDTH / 64;
    let cell_height = WIN_HEIGHT / 32;
    CellRect {
        x: col as i32 * cell_width as i32,
        y: row as i32 * cell_height as i32,
        width: cell_width,
        height: cell_height,
    }
}

} // verus!
