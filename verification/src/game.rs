//! Core game logic and simulation state for Conway's Game of Life:
//! a double-buffered stepping engine with pause state, a bounded tick
//! interval, and a generation counter.

use crate::grid::{CellState, Grid};
use vstd::prelude::*;

verus! {

/// Lower bound for the tick interval, in milliseconds.
pub const MIN_INTERVAL_MS: u64 = 30;

/// Upper bound for the tick interval, in milliseconds.
pub const MAX_INTERVAL_MS: u64 = 1000;

/// Step size for speed adjustments, in milliseconds.
pub const INTERVAL_STEP_MS: u64 = 10;

/// Default tick interval, in milliseconds.
pub const DEFAULT_INTERVAL_MS: u64 = 100;

/// Denominator of the randomization density: a density is a count of
/// millionths.
pub const DENSITY_SCALE: u32 = 1000000;

/// Current state of the simulation.
#[derive(Debug, Clone, Copy, PartialEq, Eq, Structural)]
pub enum GameState {
    /// Simulation is actively running.
    Running,
    /// Simulation is paused.
    Paused,
}

/// The next state of a cell under the Game of Life rule: a live cell with
/// 2 or 3 live neighbors survives, a dead cell with exactly 3 live
/// neighbors is born, and every other combination yields a dead cell.
pub open spec fn life_rule(s: CellState, neighbors: int) -> CellState {
    if s is Alive && (neighbors == 2 || neighbors == 3) {
        CellState::Alive
    } else if s is Dead && neighbors == 3 {
        CellState::Alive
    } else {
        CellState::Dead
    }
}

/// Manages core game logic and simulation state.
#[derive(Debug, Clone)]
pub struct Game {
    /// Current generation's grid state.
    pub grid: Grid,
    /// Next generation's grid (pre-allocated, swapped in by `step`).
    pub next_grid: Grid,
    /// Simulation state.
    pub state: GameState,
    /// Time between simulation steps, in milliseconds.
    pub tick_interval: u64,
    /// Number of generations that have elapsed.
    pub generation: u64,
}

impl Game {
    /// The game's invariant: both grids are well-formed and share
    /// identical dimensions, and the tick interval lies within bounds.
    pub open spec fn wf(self) -> bool {
        &&& self.grid.wf()
        &&& self.next_grid.wf()
        &&& self.next_grid.width == self.grid.width
        &&& self.next_grid.height == self.grid.height
        &&& MIN_INTERVAL_MS <= self.tick_interval <= MAX_INTERVAL_MS
    }

    /// One application of the stepping rule: every cell of `post`'s grid
    /// is the rule applied to the corresponding cell and neighbor count of
    /// `pre`'s, the generation has advanced by exactly one, and everything
    /// else is unchanged.
    pub open spec fn stepped(pre: Game, post: Game) -> bool {
        &&& post.grid.width == pre.grid.width
        &&& post.grid.height == pre.grid.height
        &&& forall|i: int, j: int|
            0 <= i < pre.grid.height && 0 <= j < pre.grid.width ==> #[trigger] post.grid.cell(i, j)
                == life_rule(pre.grid.cell(i, j), pre.grid.neighbor_count(i, j))
        &&& post.generation == pre.generation + 1
        &&& post.state == pre.state
        &&& post.tick_interval == pre.tick_interval
    }

    /// Creates a new game with the specified grid size, all cells Dead,
    /// running, at the default speed.
    pub fn new(grid_size: (usize, usize)) -> (r: Game)
        requires
            0 < grid_size.0,
            0 < grid_size.1,
            grid_size.0 * grid_size.1 <= isize::MAX,
        ensures
            r.wf(),
            r.grid.width == grid_size.0,
            r.grid.height == grid_size.1,
            r.grid.population == 0,
            forall|i: int, j: int|
                0 <= i < grid_size.1 && 0 <= j < grid_size.0 ==> r.grid.cell(i, j) is Dead,
            r.state is Running,
            r.tick_interval == DEFAULT_INTERVAL_MS,
            r.generation == 0,
    {
        let grid = Grid::new(grid_size.0, grid_size.1);
        let next_grid = Grid::new(grid_size.0, grid_size.1);

        Game {
            grid,
            next_grid,
            state: GameState::Running,
            tick_interval: DEFAULT_INTERVAL_MS,
            generation: 0,
        }
    }

    /// Advances the simulation by one generation: writes the rule's result
    /// for every cell into the scratch grid, swaps the two buffers, and
    /// increments the generation counter.
    pub fn step(&mut self)
        requires
            old(self).wf(),
            old(self).generation < u64::MAX,
        ensures
            final(self).wf(),
            Game::stepped(*old(self), *final(self)),
    {
        let h = self.grid.height;
        let w = self.grid.width;
        let mut row: usize = 0;
        while row < h
            invariant
                self.wf(),
                self.grid == old(self).grid,
                self.state == old(self).state,
                self.tick_interval == old(self).tick_interval,
                self.generation == old(self).generation,
                h == self.grid.height,
                w == self.grid.width,
                row <= h,
                forall|i: int, j: int|
                    0 <= i < h && 0 <= j < w && i < row ==> self.next_grid.cell(i, j) == life_rule(
                        self.grid.cell(i, j),
                        self.grid.neighbor_count(i, j),
                    ),
            decreases h - row,
        {
            let mut col: usize = 0;
            while col < w
                invariant
                    self.wf(),
                    self.grid == old(self).grid,
                    self.state == old(self).state,
                    self.tick_interval == old(self).tick_interval,
                    self.generation == old(self).generation,
                    h == self.grid.height,
                    w == self.grid.width,
                    row < h,
                    col <= w,
                    forall|i: int, j: int|
                        0 <= i < h && 0 <= j < w && (i < row || (i == row && j < col))
                            ==> self.next_grid.cell(i, j) == life_rule(
                            self.grid.cell(i, j),
                            self.grid.neighbor_count(i, j),
                        ),
                decreases w - col,
            {
                let current = match self.grid.get(row, col) {
                    Some(c) => c,
                    None => CellState::Dead,
                };
                let neighbors = self.grid.count_neighbors(row, col);

                let new_state = if current.is_alive() && (neighbors == 2 || neighbors == 3) {
                    CellState::Alive
                } else if !current.is_alive() && neighbors == 3 {
                    CellState::Alive
                } else {
                    CellState::Dead
                };

                self.next_grid.set(row, col, new_state);
                col = col + 1;
            }
            row = row + 1;
        }

        // Swap grids
        core::mem::swap(&mut self.grid, &mut self.next_grid);

        // Update stats
        self.generation = self.generation + 1;
    }

    /// Resizes the grid while preserving existing cells where possible;
    /// a no-op when the dimensions are unchanged. The scratch grid is
    /// reallocated fresh, its prior contents discarded.
    pub fn resize(&mut self, new_width: usize, new_height: usize)
        requires
            old(self).wf(),
            0 < new_width,
            0 < new_height,
            new_width * new_height <= isize::MAX,
        ensures
            final(self).wf(),
            final(self).grid.width == new_width,
            final(self).grid.height == new_height,
            forall|i: int, j: int|
                0 <= i < new_height && 0 <= j < new_width ==> final(self).grid.cell(i, j) == (if i
                    < old(self).grid.height && j < old(self).grid.width {
                    old(self).grid.cell(i, j)
                } else {
                    CellState::Dead
                }),
            final(self).generation == old(self).generation,
            final(self).state == old(self).state,
            final(self).tick_interval == old(self).tick_interval,
    {
        if self.grid.width == new_width && self.grid.height == new_height {
            return ;
        }
        self.grid.resize(new_width, new_height);
        self.next_grid = Grid::new(new_width, new_height);
    }

    /// Clears the grid and resets the generation counter.
    pub fn clear(&mut self)
        requires
            old(self).wf(),
        ensures
            final(self).wf(),
            final(self).grid.width == old(self).grid.width,
            final(self).grid.height == old(self).grid.height,
            final(self).grid.population == 0,
            forall|i: int, j: int|
                0 <= i < old(self).grid.height && 0 <= j < old(self).grid.width ==> final(self).grid.cell(i, j) is Dead,
            final(self).generation == 0,
            final(self).state == old(self).state,
            final(self).tick_interval == old(self).tick_interval,
            final(self).next_grid == old(self).next_grid,
    {
        self.grid.clear();
        self.generation = 0;
    }

    /// Randomizes the grid: every cell is independently set Alive with
    /// probability `density` millionths (Dead otherwise), and the
    /// generation counter is reset.
    pub fn randomize(&mut self, density: u32)
        requires
            old(self).wf(),
            density <= DENSITY_SCALE,
        ensures
            final(self).wf(),
            final(self).grid.width == old(self).grid.width,
            final(self).grid.height == old(self).grid.height,
            final(self).generation == 0,
            final(self).state == old(self).state,
            final(self).tick_interval == old(self).tick_interval,
            final(self).next_grid == old(self).next_grid,
            density == 0 ==> forall|i: int, j: int|
                0 <= i < old(self).grid.height && 0 <= j < old(self).grid.width ==> final(self).grid.cell(i, j) is Dead,
            density == DENSITY_SCALE ==> forall|i: int, j: int|
                0 <= i < old(self).grid.height && 0 <= j < old(self).grid.width ==> final(self).grid.cell(i, j) is Alive,
    {
        let h = self.grid.height;
        let w = self.grid.width;
        let mut row: usize = 0;
        while row < h
            invariant
                self.wf(),
                self.grid.width == old(self).grid.width,
                self.grid.height == old(self).grid.height,
                self.state == old(self).state,
                self.tick_interval == old(self).tick_interval,
                self.generation == old(self).generation,
                self.next_grid == old(self).next_grid,
                h == self.grid.height,
                w == self.grid.width,
                row <= h,
                density == 0 ==> forall|i: int, j: int|
                    0 <= i < h && 0 <= j < w && i < row ==> self.grid.cell(i, j) is Dead,
                density == DENSITY_SCALE ==> forall|i: int, j: int|
                    0 <= i < h && 0 <= j < w && i < row ==> self.grid.cell(i, j) is Alive,
            decreases h - row,
        {
            let mut col: usize = 0;
            while col < w
                invariant
                    self.wf(),
                    self.grid.width == old(self).grid.width,
                    self.grid.height == old(self).grid.height,
                    self.state == old(self).state,
                    self.tick_interval == old(self).tick_interval,
                    self.generation == old(self).generation,
                    self.next_grid == old(self).next_grid,
                    h == self.grid.height,
                    w == self.grid.width,
                    row < h,
                    col <= w,
                    density == 0 ==> forall|i: int, j: int|
                        0 <= i < h && 0 <= j < w && (i < row || (i == row && j < col))
                            ==> self.grid.cell(i, j) is Dead,
                    density == DENSITY_SCALE ==> forall|i: int, j: int|
                        0 <= i < h && 0 <= j < w && (i < row || (i == row && j < col))
                            ==> self.grid.cell(i, j) is Alive,
                decreases w - col,
            {
                let draw = random_below(DENSITY_SCALE);
                let state = if draw < density {
                    CellState::Alive
                } else {
                    CellState::Dead
                };
                self.grid.set(row, col, state);
                col = col + 1;
            }
            row = row + 1;
        }
        self.generation = 0;
    }

    /// The interval after one increase: one step slower, clamped above.
    pub open spec fn inc_interval_spec(t: u64) -> u64 {
        if t + INTERVAL_STEP_MS > MAX_INTERVAL_MS {
            MAX_INTERVAL_MS
        } else {
            (t + INTERVAL_STEP_MS) as u64
        }
    }

    /// The interval after one decrease: one step faster, clamped below.
    pub open spec fn dec_interval_spec(t: u64) -> u64 {
        if t < MIN_INTERVAL_MS + INTERVAL_STEP_MS {
            MIN_INTERVAL_MS
        } else {
            (t - INTERVAL_STEP_MS) as u64
        }
    }

    /// Increases the tick interval (slows down the simulation), saturating
    /// at the upper bound, and returns the resulting interval.
    pub fn inc_interval(&mut self) -> (r: u64)
        requires
            old(self).wf(),
        ensures
            final(self).wf(),
            final(self).tick_interval == Game::inc_interval_spec(old(self).tick_interval),
            r == final(self).tick_interval,
            MIN_INTERVAL_MS <= r <= MAX_INTERVAL_MS,
            final(self).grid == old(self).grid,
            final(self).next_grid == old(self).next_grid,
            final(self).state == old(self).state,
            final(self).generation == old(self).generation,
    {
        let t = self.tick_interval + INTERVAL_STEP_MS;
        self.tick_interval = if t > MAX_INTERVAL_MS {
            MAX_INTERVAL_MS
        } else {
            t
        };
        self.tick_interval
    }

    /// Decreases the tick interval (speeds up the simulation), saturating
    /// at the lower bound, and returns the resulting interval.
    pub fn dec_interval(&mut self) -> (r: u64)
        requires
            old(self).wf(),
        ensures
            final(self).wf(),
            final(self).tick_interval == Game::dec_interval_spec(old(self).tick_interval),
            r == final(self).tick_interval,
            MIN_INTERVAL_MS <= r <= MAX_INTERVAL_MS,
            final(self).grid == old(self).grid,
            final(self).next_grid == old(self).next_grid,
            final(self).state == old(self).state,
            final(self).generation == old(self).generation,
    {
        let t = self.tick_interval;
        self.tick_interval = if t < MIN_INTERVAL_MS + INTERVAL_STEP_MS {
            MIN_INTERVAL_MS
        } else {
            t - INTERVAL_STEP_MS
        };
        self.tick_interval
    }

    /// Toggles between running and paused states.
    pub fn toggle_pause(&mut self)
        requires
            old(self).wf(),
        ensures
            final(self).wf(),
            final(self).state == (if old(self).state is Running {
                GameState::Paused
            } else {
                GameState::Running
            }),
            final(self).grid == old(self).grid,
            final(self).next_grid == old(self).next_grid,
            final(self).tick_interval == old(self).tick_interval,
            final(self).generation == old(self).generation,
    {
        self.state = if self.state == GameState::Running {
            GameState::Paused
        } else {
            GameState::Running
        };
    }

    /// Returns true if the simulation is currently paused.
    pub fn is_paused(&self) -> (r: bool)
        ensures
            r == (self.state is Paused),
    {
        self.state == GameState::Paused
    }
}

/// Relies on rand::random_range: a uniform draw from a nonempty half-open
/// range of unsigned integers lies in that range.
#[verifier::external_body]
fn random_below(n: u32) -> (r: u32)
    requires
        0 < n,
    ensures
        r < n,
{
    rand::random_range(0..n)
}

/// No spontaneous birth: one step of an all-Dead grid leaves every cell
/// Dead, and increments the generation by exactly one.
pub proof fn lemma_step_all_dead(pre: Game, post: Game)
    requires
        pre.wf(),
        Game::stepped(pre, post),
        forall|i: int, j: int|
            0 <= i < pre.grid.height && 0 <= j < pre.grid.width ==> pre.grid.cell(i, j) is Dead,
    ensures
        forall|i: int, j: int|
            0 <= i < post.grid.height && 0 <= j < post.grid.width ==> post.grid.cell(i, j) is Dead,
        post.generation == pre.generation + 1,
{
    assert forall|i: int, j: int|
        0 <= i < post.grid.height && 0 <= j < post.grid.width implies post.grid.cell(
        i,
        j,
    ) is Dead by {
        pre.grid.lemma_wrapped_in_bounds(i - 1, j - 1);
        pre.grid.lemma_wrapped_in_bounds(i - 1, j);
        pre.grid.lemma_wrapped_in_bounds(i - 1, j + 1);
        pre.grid.lemma_wrapped_in_bounds(i, j - 1);
        pre.grid.lemma_wrapped_in_bounds(i, j + 1);
        pre.grid.lemma_wrapped_in_bounds(i + 1, j - 1);
        pre.grid.lemma_wrapped_in_bounds(i + 1, j);
        pre.grid.lemma_wrapped_in_bounds(i + 1, j + 1);
        assert(pre.grid.neighbor_count(i, j) == 0);
    }
}

/// On a grid whose only live cells are a 2x2 block away from every edge,
/// the stepping rule fixes each in-bounds cell: block cells see 3 live
/// neighbors and survive, all other cells see at most 2 and stay dead.
#[verifier::spinoff_prover]
#[verifier::rlimit(60)]
proof fn lemma_block_cell_fixed(pre: Game, post: Game, r: int, c: int, i: int, j: int)
    requires
        pre.wf(),
        Game::stepped(pre, post),
        1 <= r && r + 3 <= pre.grid.height,
        1 <= c && c + 3 <= pre.grid.width,
        0 <= i < pre.grid.height,
        0 <= j < pre.grid.width,
        forall|a: int, b: int|
            0 <= a < pre.grid.height && 0 <= b < pre.grid.width ==> (pre.grid.cell(
                a,
                b,
            ) is Alive <==> (r <= a < r + 2 && c <= b < c + 2)),
    ensures
        post.grid.cell(i, j) == pre.grid.cell(i, j),
{
    let g = pre.grid;
    let h = g.height as int;
    let w = g.width as int;
    g.lemma_wrap_small(i - 1, j - 1);
    g.lemma_wrap_small(i, j);
    g.lemma_wrap_small(i + 1, j + 1);
    // The wrapped neighbor coordinates, written without remainders: the
    // block sits away from every edge, so wrapping can only land on a
    // border row or column, never inside the block.
    let im1 = if i == 0 {
        h - 1
    } else {
        i - 1
    };
    let ip1 = if i + 1 == h {
        0int
    } else {
        i + 1
    };
    let jm1 = if j == 0 {
        w - 1
    } else {
        j - 1
    };
    let jp1 = if j + 1 == w {
        0int
    } else {
        j + 1
    };
    assert((i - 1) % h == im1 && (i + 1) % h == ip1 && i % h == i);
    assert((j - 1) % w == jm1 && (j + 1) % w == jp1 && j % w == j);
    assert(g.neighbor_count(i, j) == (if r <= im1 < r + 2 && c <= jm1 < c + 2 {
        1int
    } else {
        0int
    }) + (if r <= im1 < r + 2 && c <= j < c + 2 {
        1int
    } else {
        0int
    }) + (if r <= im1 < r + 2 && c <= jp1 < c + 2 {
        1int
    } else {
        0int
    }) + (if r <= i < r + 2 && c <= jm1 < c + 2 {
        1int
    } else {
        0int
    }) + (if r <= i < r + 2 && c <= jp1 < c + 2 {
        1int
    } else {
        0int
    }) + (if r <= ip1 < r + 2 && c <= jm1 < c + 2 {
        1int
    } else {
        0int
    }) + (if r <= ip1 < r + 2 && c <= j < c + 2 {
        1int
    } else {
        0int
    }) + (if r <= ip1 < r + 2 && c <= jp1 < c + 2 {
        1int
    } else {
        0int
    }));
    if r <= i < r + 2 && c <= j < c + 2 {
        assert(g.neighbor_count(i, j) == 3);
    } else {
        assert(g.neighbor_count(i, j) <= 2);
    }
    assert(post.grid.cell(i, j) == life_rule(g.cell(i, j), g.neighbor_count(i, j)));
}

/// Still life: a 2x2 block of Alive cells, placed away from every edge of
/// an otherwise-Dead grid so that wrap-around cannot touch it, is
/// unchanged by one step.
#[verifier::spinoff_prover]
#[verifier::rlimit(60)]
pub proof fn lemma_block_still_life(pre: Game, post: Game, r: int, c: int)
    requires
        pre.wf(),
        Game::stepped(pre, post),
        1 <= r && r + 3 <= pre.grid.height,
        1 <= c && c + 3 <= pre.grid.width,
        forall|a: int, b: int|
            0 <= a < pre.grid.height && 0 <= b < pre.grid.width ==> (pre.grid.cell(
                a,
                b,
            ) is Alive <==> (r <= a < r + 2 && c <= b < c + 2)),
    ensures
        forall|i: int, j: int|
            0 <= i < post.grid.height && 0 <= j < post.grid.width ==> #[trigger] post.grid.cell(
                i,
                j,
            ) == pre.grid.cell(i, j),
{
    assert forall|i: int, j: int|
        0 <= i < post.grid.height && 0 <= j < post.grid.width implies #[trigger] post.grid.cell(
        i,
        j,
    ) == pre.grid.cell(i, j) by {
        lemma_block_cell_fixed(pre, post, r, c, i, j);
    }
}

/// Underpopulation: a cell with no live neighbors is Dead after one step,
/// whatever its own state was.
pub proof fn lemma_underpopulation(pre: Game, post: Game, row: int, col: int)
    requires
        pre.wf(),
        Game::stepped(pre, post),
        0 <= row < pre.grid.height,
        0 <= col < pre.grid.width,
        pre.grid.neighbor_count(row, col) == 0,
    ensures
        post.grid.cell(row, col) is Dead,
{
    assert(life_rule(pre.grid.cell(row, col), 0) is Dead);
}

} // verus!
