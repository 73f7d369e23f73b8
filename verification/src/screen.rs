//! The fixed size of the window, derived from the tile grid.

use vstd::prelude::*;

verus! {

/// Edge of a tile in the tile set, in pixels.
pub const BASE_TILE_SIZE: u32 = 16;

/// Factor by which tiles are enlarged on screen.
pub const SCALE: u32 = 3;

/// Tiles in one row of the screen.
pub const MAX_SCREEN_COLUMNS: u32 = 16;

/// Tiles in one column of the screen.
pub const MAX_SCREEN_ROWS: u32 = 12;

/// Edge of a tile on screen, in pixels.
pub const TILE_SIZE: u32 = BASE_TILE_SIZE * SCALE;

/// Width of the window's framebuffer, in pixels.
pub const SCREEN_WIDTH: u32 = TILE_SIZE * MAX_SCREEN_COLUMNS;

/// Height of the window's framebuffer, in pixels.
pub const SCREEN_HEIGHT: u32 = TILE_SIZE * MAX_SCREEN_ROWS;

/// The size the window is created with: width, then height.
pub fn window_size() -> (size: (u32, u32))
    ensures
        size.0 == BASE_TILE_SIZE * SCALE * MAX_SCREEN_COLUMNS,
        size.1 == BASE_TILE_SIZE * SCALE * MAX_SCREEN_ROWS,
        size == (768u32, 576u32),
{
    (SCREEN_WIDTH, SCREEN_HEIGHT)
}

} // verus!
