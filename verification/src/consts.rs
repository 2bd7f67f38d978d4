//! The fixed dimensions of the screen and of the grid drawn on it.

use vstd::prelude::*;

verus! {

/// Columns of the grid.
pub const GRID_SIZE_X: usize = 96;

/// Rows of the grid.
pub const GRID_SIZE_Y: usize = 60;

/// Width of the screen, which is also the width of an exported drawing.
pub const SCREEN_W: usize = 1920;

/// Height of the screen, which is also the height of an exported drawing.
pub const SCREEN_H: usize = 1080;

} // verus!
