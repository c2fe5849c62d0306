//! A finite, non-wrapping two-dimensional cellular automaton (Conway's Game
//! of Life). The grid evolves in discrete synchronous steps: every cell is
//! evaluated against the pre-step matrix, so partial updates are never
//! visible within one step.

use vstd::prelude::*;

pub mod laws;
pub mod pattern;

verus! {

/// The state of one grid position: a two-valued immutable value type.
#[derive(Clone, Copy, PartialEq, Eq, Structural, Debug)]
pub enum Cell {
    Alive,
    Dead,
}

impl Cell {
    /// Whether this cell is alive.
    pub fn is_alive(&self) -> (r: bool)
        ensures
            r == (*self == Cell::Alive),
    {
        match self {
            Cell::Alive => true,
            Cell::Dead => false,
        }
    }
}

/// 1 if `b` holds, else 0: the contribution of one candidate neighbor.
pub open spec fn b2i(b: bool) -> int {
    if b {
        1
    } else {
        0
    }
}

/// Whether position `(r, c)` exists in `g` and holds an alive cell.
/// Positions outside the matrix never count (finite, non-wrapping grid).
pub open spec fn alive_at(g: Seq<Seq<Cell>>, r: int, c: int) -> bool {
    0 <= r < g.len() && 0 <= c < g[r].len() && g[r][c] == Cell::Alive
}

/// The number of alive cells among the 8 positions adjacent to `(r, c)`,
/// counting only positions inside the matrix.
pub open spec fn live_neighbors(g: Seq<Seq<Cell>>, r: int, c: int) -> int {
    b2i(alive_at(g, r - 1, c - 1)) + b2i(alive_at(g, r - 1, c)) + b2i(alive_at(g, r - 1, c + 1))
        + b2i(alive_at(g, r, c - 1)) + b2i(alive_at(g, r, c + 1)) + b2i(
        alive_at(g, r + 1, c - 1),
    ) + b2i(alive_at(g, r + 1, c)) + b2i(alive_at(g, r + 1, c + 1))
}

/// The rule applied independently to every cell: survival with 2 or 3 live
/// neighbors, death by under- or overpopulation, birth with exactly 3.
pub open spec fn next_cell(cur: Cell, n: int) -> Cell {
    if cur == Cell::Alive {
        if n == 2 || n == 3 {
            Cell::Alive
        } else {
            Cell::Dead
        }
    } else {
        if n == 3 {
            Cell::Alive
        } else {
            Cell::Dead
        }
    }
}

/// One synchronous generation: every cell of the result is the rule applied
/// to the corresponding cell of `g`, with neighbor counts read from `g` alone.
pub open spec fn step_spec(g: Seq<Seq<Cell>>) -> Seq<Seq<Cell>> {
    Seq::new(g.len(), |r: int| Seq::new(g[r].len(), |c: int| next_cell(g[r][c], live_neighbors(g, r, c))))
}

/// The mathematical contents of a row-major matrix of cells.
pub open spec fn rows_view(cells: Seq<Vec<Cell>>) -> Seq<Seq<Cell>> {
    cells.map_values(|row: Vec<Cell>| row@)
}

/// The simulation grid: a rectangular, row-major matrix of cells together
/// with its dimensions.
pub struct Grid {
    width: i32,
    height: i32,
    cells: Vec<Vec<Cell>>,
}

impl View for Grid {
    type V = Seq<Seq<Cell>>;

    closed spec fn view(&self) -> Seq<Seq<Cell>> {
        rows_view(self.cells@)
    }
}

impl Grid {
    /// The number of columns, as a mathematical value.
    pub closed spec fn spec_width(&self) -> i32 {
        self.width
    }

    /// The number of rows, as a mathematical value.
    pub closed spec fn spec_height(&self) -> i32 {
        self.height
    }

    /// The grid invariant: positive dimensions and a rectangular matrix of
    /// exactly `height` rows of `width` cells each.
    pub open spec fn wf(&self) -> bool {
        &&& 0 < self.spec_width()
        &&& 0 < self.spec_height()
        &&& self@.len() == self.spec_height()
        &&& forall|r: int| 0 <= r < self@.len() ==> #[trigger] self@[r].len() == self.spec_width()
    }

    /// The number of columns.
    pub fn width(&self) -> (w: i32)
        ensures
            w == self.spec_width(),
    {
        self.width
    }

    /// The number of rows.
    pub fn height(&self) -> (h: i32)
        ensures
            h == self.spec_height(),
    {
        self.height
    }

    /// Whether `width`, `height` and `cells` form a valid grid: positive
    /// dimensions and exactly `height` rows of `width` cells each.
    pub open spec fn valid_input(width: i32, height: i32, cells: Seq<Vec<Cell>>) -> bool {
        &&& 0 < width
        &&& 0 < height
        &&& cells.len() == height
        &&& forall|r: int| 0 <= r < cells.len() ==> #[trigger] cells[r]@.len() == width
    }

    /// Construct generation 0 from an initial matrix, typically supplied by
    /// an external pattern provider. Construction is rejected, never silently
    /// repaired, when the matrix does not match the dimensions.
    pub fn new(width: i32, height: i32, cells: Vec<Vec<Cell>>) -> (g: Option<Grid>)
        ensures
            Self::valid_input(width, height, cells@) ==> (g matches Some(gr)
                && gr.wf()
                && gr@ == rows_view(cells@)
                && gr.spec_width() == width
                && gr.spec_height() == height),
            !Self::valid_input(width, height, cells@) ==> g is None,
    {
        if width <= 0 || height <= 0 {
            return None;
        }
        if cells.len() != height as usize {
            return None;
        }
        let mut r: usize = 0;
        while r < cells.len()
            invariant
                cells@.len() == height as int,
                0 < width,
                r <= cells@.len(),
                forall|i: int| 0 <= i < r ==> #[trigger] cells@[i]@.len() == width,
            decreases cells@.len() - r,
        {
            if cells[r].len() != width as usize {
                return None;
            }
            r = r + 1;
        }
        Some(Grid { width, height, cells })
    }

    /// Read-only access to one cell of the current generation, for callers
    /// that draw or inspect the matrix.
    pub fn cell_at(&self, row: i32, col: i32) -> (c: Cell)
        requires
            self.wf(),
            0 <= row < self.spec_height(),
            0 <= col < self.spec_width(),
        ensures
            c == self@[row as int][col as int],
    {
        self.cells[row as usize][col as usize]
    }

    /// Advance the grid by one generation: every cell is rewritten according
    /// to the rule, with neighbor counts read from the pre-step matrix alone,
    /// and the matrix is replaced atomically. The dimensions never change.
    pub fn tick(&mut self)
        requires
            old(self).wf(),
        ensures
            final(self).wf(),
            final(self)@ == step_spec(old(self)@),
            final(self).spec_width() == old(self).spec_width(),
            final(self).spec_height() == old(self).spec_height(),
    {
        self.update_cells();
    }

    /// Compute the next matrix from the current one, then replace the
    /// current matrix with it in a single assignment.
    fn update_cells(&mut self)
        requires
            old(self).wf(),
        ensures
            final(self).wf(),
            final(self)@ == step_spec(old(self)@),
            final(self).spec_width() == old(self).spec_width(),
            final(self).spec_height() == old(self).spec_height(),
    {
        let ghost g0 = self@;
        let mut next: Vec<Vec<Cell>> = Vec::new();
        let mut row: usize = 0;
        while row < self.cells.len()
            invariant
                self == old(self),
                self.wf(),
                g0 == self@,
                row <= self.cells@.len(),
                next@.len() == row,
                forall|r: int| 0 <= r < row ==> #[trigger] next@[r]@ == step_spec(g0)[r],
            decreases self.cells@.len() - row,
        {
            let mut new_row: Vec<Cell> = Vec::new();
            let mut col: usize = 0;
            while col < self.cells[row].len()
                invariant
                    self == old(self),
                    self.wf(),
                    g0 == self@,
                    row < self.cells@.len(),
                    col <= self.cells@[row as int]@.len(),
                    new_row@.len() == col,
                    forall|c: int|
                        0 <= c < col ==> #[trigger] new_row@[c] == step_spec(g0)[row as int][c],
                decreases self.cells@[row as int]@.len() - col,
            {
                let cur = self.cells[row][col];
                let n = alive_neighbors_count(row as i32, col as i32, self);
                let nc = if cur.is_alive() {
                    if n < 2 || n > 3 {
                        Cell::Dead
                    } else {
                        Cell::Alive
                    }
                } else {
                    if n == 3 {
                        Cell::Alive
                    } else {
                        Cell::Dead
                    }
                };
                assert(nc == next_cell(g0[row as int][col as int], live_neighbors(g0, row as int, col as int)));
                new_row.push(nc);
                col = col + 1;
            }
            assert(new_row@ =~= step_spec(g0)[row as int]);
            next.push(new_row);
            row = row + 1;
        }
        assert(rows_view(next@) =~~= step_spec(g0));
        self.cells = next;
    }
}

/// Whether position `(r, c)` is inside the grid and holds an alive cell;
/// positions outside the grid contribute nothing.
fn alive_at_checked(grid: &Grid, r: i32, c: i32) -> (b: bool)
    requires
        grid.wf(),
    ensures
        b == alive_at(grid@, r as int, c as int),
{
    if 0 <= r && r < grid.height && 0 <= c && c < grid.width {
        proof {
            assert(grid@.len() == grid.cells@.len());
            assert(grid@[r as int] == grid.cells@[r as int]@);
        }
        grid.cells[r as usize][c as usize].is_alive()
    } else {
        false
    }
}

/// The number of alive cells among the 8 neighbors of `(row, col)`, each of
/// the 8 candidate offsets bound-checked against the finite grid.
pub fn alive_neighbors_count(row: i32, col: i32, grid: &Grid) -> (n: i32)
    requires
        grid.wf(),
        0 <= row < grid.spec_height(),
        0 <= col < grid.spec_width(),
    ensures
        n == live_neighbors(grid@, row as int, col as int),
        0 <= n <= 8,
{
    let mut count: i32 = 0;
    if alive_at_checked(grid, row - 1, col - 1) {
        count = count + 1;
    }
    if alive_at_checked(grid, row - 1, col) {
        count = count + 1;
    }
    if alive_at_checked(grid, row - 1, col + 1) {
        count = count + 1;
    }
    if alive_at_checked(grid, row, col - 1) {
        count = count + 1;
    }
    if alive_at_checked(grid, row, col + 1) {
        count = count + 1;
    }
    if alive_at_checked(grid, row + 1, col - 1) {
        count = count + 1;
    }
    if alive_at_checked(grid, row + 1, col) {
        count = count + 1;
    }
    if alive_at_checked(grid, row + 1, col + 1) {
        count = count + 1;
    }
    count
}

} // verus!
