//! Sizing of the grid within the terminal.
//!
//! Rendering itself (widgets, colors, layout) consumes the library's
//! state from outside; the one piece of logic it needs — turning a
//! terminal size into bounded grid dimensions — is verified here.

use vstd::prelude::*;

verus! {

/// Smallest usable grid width, in cells.
pub const MIN_GRID_WIDTH: usize = 20;

/// Smallest usable grid height, in cells.
pub const MIN_GRID_HEIGHT: usize = 15;

/// Largest usable grid width, in cells.
pub const MAX_GRID_WIDTH: usize = 200;

/// Largest usable grid height, in cells.
pub const MAX_GRID_HEIGHT: usize = 100;

/// Width of each cell in terminal characters.
pub const CELL_WIDTH: usize = 2;

/// `v` clamped to `[lo, hi]`.
pub open spec fn clamped(v: int, lo: int, hi: int) -> int {
    if v < lo {
        lo
    } else if v > hi {
        hi
    } else {
        v
    }
}

/// The grid dimensions for a terminal of the given size: the space left
/// after borders, margins and the status bar, in cells, clamped to the
/// usable bounds.
pub open spec fn grid_size_spec(terminal_size: (u16, u16)) -> (usize, usize) {
    let available_width = (if terminal_size.0 >= 4 {
        (terminal_size.0 - 4) as int
    } else {
        0int
    }) / (CELL_WIDTH as int);
    let available_height = if terminal_size.1 >= 7 {
        (terminal_size.1 - 7) as int
    } else {
        0int
    };
    (
        clamped(available_width, MIN_GRID_WIDTH as int, MAX_GRID_WIDTH as int) as usize,
        clamped(available_height, MIN_GRID_HEIGHT as int, MAX_GRID_HEIGHT as int) as usize,
    )
}

/// Calculates appropriate grid dimensions based on terminal size,
/// accounting for borders, margins and the status bar, and clamping the
/// result within usable bounds.
pub fn calculate_grid_size(terminal_size: (u16, u16)) -> (r: (usize, usize))
    ensures
        r == grid_size_spec(terminal_size),
        MIN_GRID_WIDTH <= r.0 <= MAX_GRID_WIDTH,
        MIN_GRID_HEIGHT <= r.1 <= MAX_GRID_HEIGHT,
        r.0 * r.1 <= isize::MAX,
{
    let (term_width, term_height) = terminal_size;

    // 2 border + 2 margin
    let available_width = (if term_width >= 4 {
        (term_width - 4) as usize
    } else {
        0
    }) / CELL_WIDTH;
    // 2 border + 2 margin + 3 status box
    let available_height = if term_height >= 7 {
        (term_height - 7) as usize
    } else {
        0
    };

    let grid_width = if available_width < MIN_GRID_WIDTH {
        MIN_GRID_WIDTH
    } else if available_width > MAX_GRID_WIDTH {
        MAX_GRID_WIDTH
    } else {
        available_width
    };
    let grid_height = if available_height < MIN_GRID_HEIGHT {
        MIN_GRID_HEIGHT
    } else if available_height > MAX_GRID_HEIGHT {
        MAX_GRID_HEIGHT
    } else {
        available_height
    };

    proof {
        assert(grid_width * grid_height <= 200 * 100) by (nonlinear_arith)
            requires
                grid_width <= 200,
                grid_height <= 100,
        ;
    }
    (grid_width, grid_height)
}

} // verus!
