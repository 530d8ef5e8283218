//! A 2D grid for Conway's Game of Life with toroidal topology.
//!
//! Cells are stored in a flat vector in row-major order; the number of
//! Alive cells is tracked incrementally on every mutation.

use vstd::arithmetic::div_mod::{
    lemma_fundamental_div_mod, lemma_mod_bound, lemma_mod_multiples_vanish, lemma_small_mod,
};
use vstd::pervasive::VecAdditionalExecFns;
use vstd::prelude::*;
use vstd::string::StringExecFns;

verus! {

/// State of a cell.
#[derive(Clone, Copy, Debug, PartialEq, Eq, Structural)]
pub enum CellState {
    Dead,
    Alive,
}

impl CellState {
    /// Returns true if the cell is alive.
    pub fn is_alive(&self) -> (r: bool)
        ensures
            r == (*self is Alive),
    {
        matches!(self, CellState::Alive)
    }
}

/// Number of Alive cells in a sequence of cells.
pub open spec fn alive_count(s: Seq<CellState>) -> int
    decreases s.len(),
{
    if s.len() == 0 {
        0
    } else {
        alive_count(s.drop_last()) + (if s.last() is Alive {
            1int
        } else {
            0int
        })
    }
}

proof fn lemma_alive_count_bounds(s: Seq<CellState>)
    ensures
        0 <= alive_count(s) <= s.len(),
    decreases s.len(),
{
    if s.len() > 0 {
        lemma_alive_count_bounds(s.drop_last());
    }
}

proof fn lemma_alive_count_update(s: Seq<CellState>, i: int, v: CellState)
    requires
        0 <= i < s.len(),
    ensures
        alive_count(s.update(i, v)) == alive_count(s) - (if s[i] is Alive {
            1int
        } else {
            0int
        }) + (if v is Alive {
            1int
        } else {
            0int
        }),
    decreases s.len(),
{
    let t = s.update(i, v);
    if i == s.len() - 1 {
        assert(t.drop_last() =~= s.drop_last());
    } else {
        assert(t.drop_last() =~= s.drop_last().update(i, v));
        lemma_alive_count_update(s.drop_last(), i, v);
    }
}

proof fn lemma_alive_count_all_dead(s: Seq<CellState>)
    requires
        forall|k: int| 0 <= k < s.len() ==> !(s[k] is Alive),
    ensures
        alive_count(s) == 0,
    decreases s.len(),
{
    if s.len() > 0 {
        lemma_alive_count_all_dead(s.drop_last());
    }
}

/// Row-major indexing stays inside a `w * h` buffer.
proof fn lemma_index_bound(w: int, h: int, row: int, col: int)
    requires
        0 < w,
        0 <= row < h,
        0 <= col < w,
    ensures
        0 <= row * w + col,
        row * w + col < w * h,
{
    assert(0 <= row * w + col && row * w + col < w * h) by (nonlinear_arith)
        requires
            0 < w,
            0 <= row < h,
            0 <= col < w,
    ;
}

/// Row-major indexing is injective on in-bounds coordinates.
proof fn lemma_index_injective(w: int, i: int, j: int, i2: int, j2: int)
    requires
        0 < w,
        0 <= j < w,
        0 <= j2 < w,
    ensures
        (i * w + j == i2 * w + j2) <==> (i == i2 && j == j2),
{
    assert((i * w + j == i2 * w + j2) <==> (i == i2 && j == j2)) by (nonlinear_arith)
        requires
            0 < w,
            0 <= j < w,
            0 <= j2 < w,
    ;
}

/// The cell at (row, col) of a row-major sequence of cells of width `w`.
pub open spec fn cell_of(s: Seq<CellState>, w: int, row: int, col: int) -> CellState {
    s[row * w + col]
}

/// A toroidal cell matrix, stored flat in row-major order, that keeps its
/// population (number of Alive cells) in sync with the cells at all times.
#[derive(Clone, Debug)]
pub struct Grid {
    /// Flat storage of all cells, row-major.
    pub cells: Vec<CellState>,
    /// Width of the grid in cells.
    pub width: usize,
    /// Height of the grid in cells.
    pub height: usize,
    /// Current number of alive cells.
    pub population: usize,
}

impl Grid {
    /// The grid's invariant: positive dimensions, one cell per coordinate,
    /// and a population count equal to the number of Alive cells.
    pub open spec fn wf(self) -> bool {
        &&& 0 < self.width
        &&& 0 < self.height
        &&& self.cells@.len() == self.width * self.height
        &&& self.width * self.height <= isize::MAX
        &&& self.population == alive_count(self.cells@)
    }

    /// The cell at in-bounds coordinates.
    pub open spec fn cell(self, row: int, col: int) -> CellState
        recommends
            self.wf(),
            0 <= row < self.height,
            0 <= col < self.width,
    {
        self.cells@[row * self.width + col]
    }

    /// The cell at arbitrary signed coordinates, wrapped toroidally on
    /// both axes by the Euclidean remainder.
    pub open spec fn cell_wrapped(self, row: int, col: int) -> CellState
        recommends
            self.wf(),
    {
        self.cell(row % (self.height as int), col % (self.width as int))
    }

    /// Creates a new grid of given dimensions with all cells initially dead.
    pub fn new(width: usize, height: usize) -> (r: Grid)
        requires
            0 < width,
            0 < height,
            width * height <= isize::MAX,
        ensures
            r.wf(),
            r.width == width,
            r.height == height,
            r.population == 0,
            forall|i: int, j: int|
                0 <= i < height && 0 <= j < width ==> r.cell(i, j) is Dead,
    {
        let cells = dead_cells(width * height);
        let g = Grid { cells, width, height, population: 0 };
        proof {
            assert forall|i: int, j: int|
                0 <= i < height && 0 <= j < width implies g.cell(i, j) is Dead by {
                lemma_index_bound(width as int, height as int, i, j);
            }
        }
        g
    }

    /// Gets the state of a cell at the given coordinates.
    ///
    /// Returns `None` if coordinates are out of bounds.
    pub fn get(&self, row: usize, col: usize) -> (r: Option<CellState>)
        requires
            self.wf(),
        ensures
            r == if row < self.height && col < self.width {
                Some(self.cell(row as int, col as int))
            } else {
                None::<CellState>
            },
    {
        if row >= self.height || col >= self.width {
            return None;
        }
        proof {
            lemma_index_bound(self.width as int, self.height as int, row as int, col as int);
        }
        Some(self.cells[row * self.width + col])
    }

    /// Gets the state of a cell with toroidal wrapping.
    pub fn get_wrapped(&self, row: isize, col: isize) -> (r: CellState)
        requires
            self.wf(),
        ensures
            r == self.cell_wrapped(row as int, col as int),
    {
        let wr = euclid_mod(row, self.height);
        let wc = euclid_mod(col, self.width);
        proof {
            lemma_mod_bound(row as int, self.height as int);
            lemma_mod_bound(col as int, self.width as int);
            lemma_index_bound(self.width as int, self.height as int, wr as int, wc as int);
        }
        self.cells[wr * self.width + wc]
    }

    /// Sets the state of a cell at the given coordinates.
    ///
    /// Returns `None` if coordinates are out of bounds, and the previous
    /// state otherwise. The population count is updated incrementally on a
    /// genuine transition, never by scanning.
    pub fn set(&mut self, row: usize, col: usize, state: CellState) -> (r: Option<CellState>)
        requires
            old(self).wf(),
        ensures
            final(self).wf(),
            final(self).width == old(self).width,
            final(self).height == old(self).height,
            row < old(self).height && col < old(self).width ==> {
                &&& r == Some(old(self).cell(row as int, col as int))
                &&& forall|i: int, j: int|
                    0 <= i < old(self).height && 0 <= j < old(self).width ==> final(self).cell(
                        i,
                        j,
                    ) == (if i == row && j == col {
                        state
                    } else {
                        old(self).cell(i, j)
                    })
                &&& final(self).population == old(self).population - (if old(self).cell(
                    row as int,
                    col as int,
                ) is Alive {
                    1int
                } else {
                    0int
                }) + (if state is Alive {
                    1int
                } else {
                    0int
                })
            },
            !(row < old(self).height && col < old(self).width) ==> r is None && *final(self)
                == *old(self),
    {
        if row >= self.height || col >= self.width {
            return None;
        }
        proof {
            lemma_index_bound(self.width as int, self.height as int, row as int, col as int);
        }
        let idx = row * self.width + col;
        let old_state = self.cells[idx];

        // only update on state changes
        if old_state != state {
            proof {
                lemma_alive_count_update(self.cells@, idx as int, state);
                lemma_alive_count_bounds(self.cells@.update(idx as int, state));
            }
            // Update population count
            if old_state.is_alive() && !state.is_alive() {
                self.population = self.population - 1;
            } else if !old_state.is_alive() && state.is_alive() {
                self.population = self.population + 1;
            }
            self.cells.set(idx, state);
        }
        proof {
            let w = old(self).width as int;
            assert forall|i: int, j: int|
                0 <= i < old(self).height && 0 <= j < old(self).width implies self.cell(i, j)
                == (if i == row && j == col {
                state
            } else {
                old(self).cell(i, j)
            }) by {
                lemma_index_bound(w, old(self).height as int, i, j);
                lemma_index_injective(w, i, j, row as int, col as int);
            }
        }
        Some(old_state)
    }
    /// Number of Alive cells in the Moore neighborhood of a cell: the sum
    /// over the 8 offsets of a wrapped lookup.
    pub open spec fn neighbor_count(self, row: int, col: int) -> int
        recommends
            self.wf(),
    {
        (if self.cell_wrapped(row - 1, col - 1) is Alive {
            1int
        } else {
            0int
        }) + (if self.cell_wrapped(row - 1, col) is Alive {
            1int
        } else {
            0int
        }) + (if self.cell_wrapped(row - 1, col + 1) is Alive {
            1int
        } else {
            0int
        }) + (if self.cell_wrapped(row, col - 1) is Alive {
            1int
        } else {
            0int
        }) + (if self.cell_wrapped(row, col + 1) is Alive {
            1int
        } else {
            0int
        }) + (if self.cell_wrapped(row + 1, col - 1) is Alive {
            1int
        } else {
            0int
        }) + (if self.cell_wrapped(row + 1, col) is Alive {
            1int
        } else {
            0int
        }) + (if self.cell_wrapped(row + 1, col + 1) is Alive {
            1int
        } else {
            0int
        })
    }

    /// Counts the number of alive neighbors in the Moore neighborhood of an
    /// in-bounds cell.
    pub fn count_neighbors(&self, row: usize, col: usize) -> (r: u8)
        requires
            self.wf(),
            row < self.height,
            col < self.width,
        ensures
            r == self.neighbor_count(row as int, col as int),
            r <= 8,
    {
        proof {
            let w = self.width as int;
            let h = self.height as int;
            assert(h <= w * h && w <= w * h) by (nonlinear_arith)
                requires
                    1 <= w,
                    1 <= h,
            ;
        }
        let ri = row as isize;
        let ci = col as isize;
        let mut n: u8 = 0;
        if self.get_wrapped(ri - 1, ci - 1).is_alive() {
            n = n + 1;
        }
        if self.get_wrapped(ri - 1, ci).is_alive() {
            n = n + 1;
        }
        if self.get_wrapped(ri - 1, ci + 1).is_alive() {
            n = n + 1;
        }
        if self.get_wrapped(ri, ci - 1).is_alive() {
            n = n + 1;
        }
        if self.get_wrapped(ri, ci + 1).is_alive() {
            n = n + 1;
        }
        if self.get_wrapped(ri + 1, ci - 1).is_alive() {
            n = n + 1;
        }
        if self.get_wrapped(ri + 1, ci).is_alive() {
            n = n + 1;
        }
        if self.get_wrapped(ri + 1, ci + 1).is_alive() {
            n = n + 1;
        }
        n
    }

    /// Resizes the grid, preserving existing cells that fit within the new
    /// dimensions.
    ///
    /// Cells outside the new dimensions are discarded, new areas are
    /// initialized dead, and the population is recomputed from the
    /// preserved cells alone.
    pub fn resize(&mut self, new_width: usize, new_height: usize)
        requires
            old(self).wf(),
            0 < new_width,
            0 < new_height,
            new_width * new_height <= isize::MAX,
        ensures
            final(self).wf(),
            final(self).width == new_width,
            final(self).height == new_height,
            forall|i: int, j: int|
                0 <= i < new_height && 0 <= j < new_width ==> final(self).cell(i, j) == (if i
                    < old(self).height && j < old(self).width {
                    old(self).cell(i, j)
                } else {
                    CellState::Dead
                }),
    {
        let copy_width = if self.width < new_width {
            self.width
        } else {
            new_width
        };
        let copy_height = if self.height < new_height {
            self.height
        } else {
            new_height
        };

        let mut new_cells = dead_cells(new_width * new_height);
        proof {
            assert forall|i: int, j: int|
                0 <= i < new_height && 0 <= j < new_width implies #[trigger] cell_of(
                new_cells@,
                new_width as int,
                i,
                j,
            ) is Dead by {
                lemma_index_bound(new_width as int, new_height as int, i, j);
            }
        }
        let mut new_pop: usize = 0;

        let mut row: usize = 0;
        while row < copy_height
            invariant
                *self == *old(self),
                self.wf(),
                copy_width <= self.width && copy_width <= new_width,
                copy_height <= self.height && copy_height <= new_height,
                self.width < new_width ==> copy_width == self.width,
                self.width >= new_width ==> copy_width == new_width,
                self.height < new_height ==> copy_height == self.height,
                self.height >= new_height ==> copy_height == new_height,
                0 < new_width,
                0 < new_height,
                new_width * new_height <= isize::MAX,
                row <= copy_height,
                new_cells@.len() == new_width * new_height,
                new_pop == alive_count(new_cells@),
                forall|i: int, j: int|
                    0 <= i < new_height && 0 <= j < new_width ==> #[trigger] cell_of(
                        new_cells@,
                        new_width as int,
                        i,
                        j,
                    ) == (if i < row && i < copy_height && j < copy_width {
                        self.cell(i, j)
                    } else {
                        CellState::Dead
                    }),
            decreases copy_height - row,
        {
            let mut col: usize = 0;
            while col < copy_width
                invariant
                    *self == *old(self),
                    self.wf(),
                    copy_width <= self.width && copy_width <= new_width,
                    copy_height <= self.height && copy_height <= new_height,
                    0 < new_width,
                    0 < new_height,
                    new_width * new_height <= isize::MAX,
                    row < copy_height,
                    col <= copy_width,
                    new_cells@.len() == new_width * new_height,
                    new_pop == alive_count(new_cells@),
                    forall|i: int, j: int|
                        0 <= i < new_height && 0 <= j < new_width ==> #[trigger] cell_of(
                            new_cells@,
                            new_width as int,
                            i,
                            j,
                        ) == (if (i < row || (i == row && j < col)) && i < copy_height && j
                            < copy_width {
                            self.cell(i, j)
                        } else {
                            CellState::Dead
                        }),
                decreases copy_width - col,
            {
                proof {
                    lemma_index_bound(
                        self.width as int,
                        self.height as int,
                        row as int,
                        col as int,
                    );
                    lemma_index_bound(new_width as int, new_height as int, row as int, col as int);
                }
                let state = self.cells[row * self.width + col];
                let idx = row * new_width + col;
                let ghost prev = new_cells@;
                proof {
                    assert(cell_of(prev, new_width as int, row as int, col as int) is Dead);
                    lemma_alive_count_update(prev, idx as int, state);
                    lemma_alive_count_bounds(prev.update(idx as int, state));
                }
                if state.is_alive() {
                    new_pop = new_pop + 1;
                }
                new_cells.set(idx, state);
                proof {
                    assert forall|i: int, j: int|
                        0 <= i < new_height && 0 <= j < new_width implies #[trigger] cell_of(
                        new_cells@,
                        new_width as int,
                        i,
                        j,
                    ) == (if (i < row || (i == row && j < col + 1)) && i < copy_height && j
                        < copy_width {
                        self.cell(i, j)
                    } else {
                        CellState::Dead
                    }) by {
                        lemma_index_bound(new_width as int, new_height as int, i, j);
                        lemma_index_injective(new_width as int, i, j, row as int, col as int);
                        assert(new_cells@ == prev.update(idx as int, state));
                        if !(i == row && j == col) {
                            assert(cell_of(new_cells@, new_width as int, i, j) == cell_of(
                                prev,
                                new_width as int,
                                i,
                                j,
                            ));
                        }
                    }
                }
                col = col + 1;
            }
            row = row + 1;
        }

        self.cells = new_cells;
        self.width = new_width;
        self.height = new_height;
        self.population = new_pop;
        proof {
            assert forall|i: int, j: int|
                0 <= i < new_height && 0 <= j < new_width implies self.cell(i, j) == (if i < old(
                self,
            ).height && j < old(self).width {
                old(self).cell(i, j)
            } else {
                CellState::Dead
            }) by {
                lemma_index_bound(new_width as int, new_height as int, i, j);
                assert(self.cell(i, j) == cell_of(self.cells@, new_width as int, i, j));
            }
        }
    }

    /// Clears all cells, setting them to dead, and resets the population.
    pub fn clear(&mut self)
        requires
            old(self).wf(),
        ensures
            final(self).wf(),
            final(self).width == old(self).width,
            final(self).height == old(self).height,
            final(self).population == 0,
            forall|i: int, j: int|
                0 <= i < old(self).height && 0 <= j < old(self).width ==> final(self).cell(
                    i,
                    j,
                ) is Dead,
    {
        let n = self.cells.len();
        let mut idx: usize = 0;
        while idx < n
            invariant
                self.width == old(self).width,
                self.height == old(self).height,
                self.cells@.len() == n,
                idx <= n,
                forall|k: int| 0 <= k < idx ==> !(#[trigger] self.cells@[k] is Alive),
            decreases n - idx,
        {
            self.cells.set(idx, CellState::Dead);
            idx = idx + 1;
        }
        self.population = 0;
        proof {
            lemma_alive_count_all_dead(self.cells@);
            assert forall|i: int, j: int|
                0 <= i < old(self).height && 0 <= j < old(self).width implies self.cell(
                i,
                j,
            ) is Dead by {
                lemma_index_bound(self.width as int, self.height as int, i, j);
            }
        }
    }

    /// Checks if the grid is empty (no alive cells).
    pub fn is_empty(&self) -> (r: bool)
        ensures
            r == (self.population == 0),
    {
        self.population == 0
    }

    /// Returns all cells with their (row, col) coordinates, in row-major
    /// order.
    pub fn iter_cells(&self) -> (r: Vec<((usize, usize), CellState)>)
        requires
            self.wf(),
        ensures
            r@.len() == self.width * self.height,
            forall|k: int|
                0 <= k < r@.len() ==> #[trigger] r@[k] == (
                    (
                        ((k / (self.width as int)) as usize),
                        ((k % (self.width as int)) as usize),
                    ),
                    self.cells@[k],
                ),
    {
        let mut out: Vec<((usize, usize), CellState)> = Vec::new();
        let mut idx: usize = 0;
        let n = self.cells.len();
        while idx < n
            invariant
                self.wf(),
                n == self.cells@.len(),
                idx <= n,
                out@.len() == idx,
                forall|k: int|
                    0 <= k < idx ==> #[trigger] out@[k] == (
                        (
                            ((k / (self.width as int)) as usize),
                            ((k % (self.width as int)) as usize),
                        ),
                        self.cells@[k],
                    ),
            decreases n - idx,
        {
            let row = idx / self.width;
            let col = idx % self.width;
            out.push(((row, col), self.cells[idx]));
            idx = idx + 1;
        }
        out
    }

    /// The coordinates of the Alive cells among the first `n` cells, in
    /// row-major order.
    pub open spec fn alive_cells_prefix(self, n: int) -> Seq<(usize, usize)>
        recommends
            self.wf(),
            0 <= n <= self.cells@.len(),
        decreases n,
    {
        if n <= 0 {
            Seq::empty()
        } else if self.cells@[n - 1] is Alive {
            self.alive_cells_prefix(n - 1).push(
                (
                    (((n - 1) / (self.width as int)) as usize),
                    (((n - 1) % (self.width as int)) as usize),
                ),
            )
        } else {
            self.alive_cells_prefix(n - 1)
        }
    }

    /// Returns the coordinates of all live cells, in row-major order.
    pub fn iter_alive_cells(&self) -> (r: Vec<(usize, usize)>)
        requires
            self.wf(),
        ensures
            r@ == self.alive_cells_prefix(self.cells@.len() as int),
    {
        let mut out: Vec<(usize, usize)> = Vec::new();
        let mut idx: usize = 0;
        let n = self.cells.len();
        while idx < n
            invariant
                self.wf(),
                n == self.cells@.len(),
                idx <= n,
                out@ == self.alive_cells_prefix(idx as int),
            decreases n - idx,
        {
            if self.cells[idx].is_alive() {
                let row = idx / self.width;
                let col = idx % self.width;
                out.push((row, col));
            }
            idx = idx + 1;
        }
        out
    }

    /// The two glyph characters that render one cell.
    pub open spec fn cell_glyph(c: CellState) -> Seq<char> {
        if c is Alive {
            seq!['█', '█']
        } else {
            seq![' ', ' ']
        }
    }

    /// The first `n` cells of row `i`, rendered as glyph pairs.
    pub open spec fn render_row_prefix(self, i: int, n: int) -> Seq<char>
        recommends
            self.wf(),
        decreases n,
    {
        if n <= 0 {
            Seq::empty()
        } else {
            self.render_row_prefix(i, n - 1) + Self::cell_glyph(self.cell(i, n - 1))
        }
    }

    /// The first `n` rows, rendered and joined by single line breaks, with
    /// no trailing break.
    pub open spec fn render_prefix(self, n: int) -> Seq<char>
        recommends
            self.wf(),
        decreases n,
    {
        if n <= 0 {
            Seq::empty()
        } else if n == 1 {
            self.render_row_prefix(0, self.width as int)
        } else {
            self.render_prefix(n - 1) + seq!['\n'] + self.render_row_prefix(
                n - 1,
                self.width as int,
            )
        }
    }

    /// Renders the grid to a string: each Alive cell as two solid block
    /// characters, each Dead cell as two blanks, rows joined by single
    /// line breaks with no trailing break.
    pub fn render(&self) -> (r: String)
        requires
            self.wf(),
        ensures
            r@ == self.render_prefix(self.height as int),
    {
        let mut out = String::new();
        let mut row: usize = 0;
        while row < self.height
            invariant
                self.wf(),
                row <= self.height,
                out@ == self.render_prefix(row as int),
            decreases self.height - row,
        {
            if row > 0 {
                out.append("\n");
            }
            proof {
                reveal_strlit("\n");
                assert(out@ =~= self.render_prefix(row as int) + (if row == 0 {
                    Seq::<char>::empty()
                } else {
                    seq!['\n']
                }) + self.render_row_prefix(row as int, 0));
            }
            let mut col: usize = 0;
            while col < self.width
                invariant
                    self.wf(),
                    row < self.height,
                    col <= self.width,
                    out@ == self.render_prefix(row as int) + (if row == 0 {
                        Seq::<char>::empty()
                    } else {
                        seq!['\n']
                    }) + self.render_row_prefix(row as int, col as int),
                decreases self.width - col,
            {
                proof {
                    lemma_index_bound(
                        self.width as int,
                        self.height as int,
                        row as int,
                        col as int,
                    );
                    reveal_strlit("██");
                    reveal_strlit("  ");
                    reveal_strlit("\n");
                }
                let ghost before = out@;
                if self.cells[row * self.width + col].is_alive() {
                    out.append("██");
                    proof {
                        assert(out@ =~= before + Self::cell_glyph(
                            self.cell(row as int, col as int),
                        ));
                    }
                } else {
                    out.append("  ");
                    proof {
                        assert(out@ =~= before + Self::cell_glyph(
                            self.cell(row as int, col as int),
                        ));
                    }
                }
                proof {
                    assert(out@ =~= self.render_prefix(row as int) + (if row == 0 {
                        Seq::<char>::empty()
                    } else {
                        seq!['\n']
                    }) + self.render_row_prefix(row as int, col as int + 1));
                }
                col = col + 1;
            }
            proof {
                reveal_strlit("\n");
                assert(out@ =~= self.render_prefix(row as int + 1));
            }
            row = row + 1;
        }
        out
    }

    /// Toroidal periodicity: a wrapped lookup is unchanged when the
    /// coordinates are shifted by a whole height and width.
    pub proof fn lemma_wrapped_periodic(self, row: int, col: int)
        requires
            self.wf(),
        ensures
            self.cell_wrapped(row + self.height, col + self.width) == self.cell_wrapped(row, col),
    {
        lemma_mod_multiples_vanish(1, row, self.height as int);
        lemma_mod_multiples_vanish(1, col, self.width as int);
    }

    /// A wrapped lookup lands on an in-bounds cell.
    pub proof fn lemma_wrapped_in_bounds(self, row: int, col: int)
        requires
            self.wf(),
        ensures
            0 <= row % (self.height as int) < self.height,
            0 <= col % (self.width as int) < self.width,
            self.cell_wrapped(row, col) == self.cell(
                row % (self.height as int),
                col % (self.width as int),
            ),
    {
        lemma_mod_bound(row, self.height as int);
        lemma_mod_bound(col, self.width as int);
    }

    /// Wrapping is the identity on in-bounds coordinates, and steps just
    /// past an edge wrap to the opposite edge.
    pub proof fn lemma_wrap_small(self, row: int, col: int)
        requires
            self.wf(),
            -1 <= row <= self.height,
            -1 <= col <= self.width,
        ensures
            row % (self.height as int) == (if row == -1 {
                self.height - 1
            } else if row == self.height {
                0int
            } else {
                row
            }),
            col % (self.width as int) == (if col == -1 {
                self.width - 1
            } else if col == self.width {
                0int
            } else {
                col
            }),
    {
        let h = self.height as int;
        let w = self.width as int;
        lemma_mod_multiples_vanish(1, -1, h);
        lemma_mod_multiples_vanish(1, -1, w);
        lemma_mod_multiples_vanish(1, 0, h);
        lemma_mod_multiples_vanish(1, 0, w);
        if 0 <= row < h {
            lemma_small_mod(row as nat, h as nat);
        }
        if 0 <= col < w {
            lemma_small_mod(col as nat, w as nat);
        }
        lemma_small_mod((h - 1) as nat, h as nat);
        lemma_small_mod((w - 1) as nat, w as nat);
        lemma_small_mod(0, h as nat);
        lemma_small_mod(0, w as nat);
    }
}

/// A vector of `n` Dead cells.
fn dead_cells(n: usize) -> (r: Vec<CellState>)
    ensures
        r@.len() == n,
        forall|k: int| 0 <= k < n ==> r@[k] is Dead,
        alive_count(r@) == 0,
{
    let mut cells: Vec<CellState> = Vec::new();
    while cells.len() < n
        invariant
            cells@.len() <= n,
            forall|k: int| 0 <= k < cells@.len() ==> cells@[k] is Dead,
        decreases n - cells@.len(),
    {
        cells.push(CellState::Dead);
    }
    proof {
        lemma_alive_count_all_dead(cells@);
    }
    cells
}

/// Euclidean remainder of a signed coordinate by a positive dimension:
/// the unique representative in `[0, m)`.
fn euclid_mod(a: isize, m: usize) -> (r: usize)
    requires
        0 < m,
    ensures
        r == (a as int) % (m as int),
{
    if a >= 0 {
        (a as usize) % m
    } else {
        let b = (-(a + 1)) as usize;
        let k = b % m;
        proof {
            let mi = m as int;
            let bi = b as int;
            let q = bi / mi;
            lemma_fundamental_div_mod(bi, mi);
            lemma_mod_bound(bi, mi);
            // a == -(b + 1) == mi * (-(q + 1)) + (mi - 1 - k)
            assert(mi * (-(q + 1)) + (mi - 1 - (bi % mi)) == -(bi + 1)) by (nonlinear_arith)
                requires
                    bi == mi * q + (bi % mi),
            ;
            lemma_mod_multiples_vanish(-(q + 1), mi - 1 - (bi % mi), mi);
            lemma_small_mod((mi - 1 - (bi % mi)) as nat, m as nat);
        }
        m - 1 - k
    }
}

} // verus!
