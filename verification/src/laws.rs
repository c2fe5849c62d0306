//! General properties of the automaton, proved once for every grid: the
//! per-cell rule cases, the finite-boundary policy, determinism, a still
//! life, and the blinker oscillator.

use vstd::prelude::*;
use crate::Cell;
use crate::alive_at;
use crate::b2i;
use crate::live_neighbors;
use crate::next_cell;
use crate::step_spec;

verus! {

/// Every row of `g` has exactly `w` entries.
pub open spec fn rectangular(g: Seq<Seq<Cell>>, w: int) -> bool {
    forall|i: int| 0 <= i < g.len() ==> #[trigger] g[i].len() == w
}

/// Stepping never changes the shape of the matrix: same number of rows, and
/// every row keeps its length.
pub proof fn lemma_step_preserves_shape(g: Seq<Seq<Cell>>)
    ensures
        step_spec(g).len() == g.len(),
        forall|i: int| 0 <= i < g.len() ==> #[trigger] step_spec(g)[i].len() == g[i].len(),
{
}

/// Determinism: the next generation is a function of the current matrix
/// alone, so two steps taken from equal snapshots yield equal results. Since
/// `tick` promises exactly `step_spec` of the pre-step matrix, two runs of
/// `tick` from the same saved state agree.
pub proof fn lemma_step_deterministic(a: Seq<Seq<Cell>>, b: Seq<Seq<Cell>>)
    requires
        a == b,
    ensures
        step_spec(a) == step_spec(b),
{
}

/// Boundary policy at the corner: the neighbor count of `(0, 0)` is the sum
/// of its three in-bounds neighbors alone; positions outside the grid never
/// contribute.
pub proof fn lemma_corner_neighbors(g: Seq<Seq<Cell>>)
    ensures
        live_neighbors(g, 0, 0) == b2i(alive_at(g, 0, 1)) + b2i(alive_at(g, 1, 0)) + b2i(
            alive_at(g, 1, 1),
        ),
{
}

/// Boundary correctness: a corner cell whose three in-bounds neighbors are
/// all alive becomes alive, with no wrap-around contribution.
pub proof fn lemma_corner_reproduction(g: Seq<Seq<Cell>>)
    requires
        g.len() > 0,
        g[0].len() > 0,
        live_neighbors(g, 0, 0) == 3,
    ensures
        step_spec(g)[0][0] == Cell::Alive,
{
}

/// Underpopulation: an alive cell with fewer than 2 live neighbors — in
/// particular a single isolated alive cell, with 0 — is dead after the step.
pub proof fn lemma_underpopulation(g: Seq<Seq<Cell>>, r: int, c: int)
    requires
        0 <= r < g.len(),
        0 <= c < g[r].len(),
        g[r][c] == Cell::Alive,
        live_neighbors(g, r, c) < 2,
    ensures
        step_spec(g)[r][c] == Cell::Dead,
{
}

/// Survival: an alive cell with 2 or 3 live neighbors is still alive after
/// the step.
pub proof fn lemma_survival(g: Seq<Seq<Cell>>, r: int, c: int)
    requires
        0 <= r < g.len(),
        0 <= c < g[r].len(),
        g[r][c] == Cell::Alive,
        live_neighbors(g, r, c) == 2 || live_neighbors(g, r, c) == 3,
    ensures
        step_spec(g)[r][c] == Cell::Alive,
{
}

/// Overpopulation: an alive cell with 4 or more live neighbors is dead after
/// the step.
pub proof fn lemma_overpopulation(g: Seq<Seq<Cell>>, r: int, c: int)
    requires
        0 <= r < g.len(),
        0 <= c < g[r].len(),
        g[r][c] == Cell::Alive,
        live_neighbors(g, r, c) >= 4,
    ensures
        step_spec(g)[r][c] == Cell::Dead,
{
}

/// Reproduction: a dead cell becomes alive exactly when it has 3 live
/// neighbors; with any other count — 2 or 4, say — it stays dead.
pub proof fn lemma_reproduction(g: Seq<Seq<Cell>>, r: int, c: int)
    requires
        0 <= r < g.len(),
        0 <= c < g[r].len(),
        g[r][c] == Cell::Dead,
    ensures
        step_spec(g)[r][c] == (if live_neighbors(g, r, c) == 3 {
            Cell::Alive
        } else {
            Cell::Dead
        }),
{
}

/// Still-life invariance: a 2-by-2 block of alive cells, with every other
/// cell of the grid dead, is unchanged by the step — each block cell has
/// exactly 3 live neighbors and every surrounding cell has at most 2.
pub proof fn lemma_block_still_life(g: Seq<Seq<Cell>>, r: int, c: int)
    requires
        forall|i: int, j: int|
            #[trigger] alive_at(g, i, j) <==> ((i == r || i == r + 1) && (j == c || j == c + 1)),
    ensures
        step_spec(g) == g,
{
    assert forall|i: int| 0 <= i < g.len() implies step_spec(g)[i] =~= g[i] by {
        assert forall|j: int| 0 <= j < g[i].len() implies step_spec(g)[i][j] == g[i][j] by {
            if (i == r || i == r + 1) && (j == c || j == c + 1) {
                assert(alive_at(g, i, j));
                assert(g[i][j] == Cell::Alive);
                assert(live_neighbors(g, i, j) == 3);
            } else {
                assert(!alive_at(g, i, j));
                assert(g[i][j] == Cell::Dead);
                assert(live_neighbors(g, i, j) <= 2);
            }
            assert(step_spec(g)[i][j] == next_cell(g[i][j], live_neighbors(g, i, j)));
        }
    }
    assert(step_spec(g) =~= g);
}

/// Half a blinker period: a horizontal run of 3 alive cells at row `r`,
/// columns `c - 1 ..= c + 1`, clear of the grid edges and alone on the grid,
/// becomes the vertical run of 3 alive cells at column `c`,
/// rows `r - 1 ..= r + 1`.
pub proof fn lemma_blinker_horizontal(g: Seq<Seq<Cell>>, r: int, c: int, w: int)
    requires
        rectangular(g, w),
        1 <= r && r + 1 < g.len(),
        1 <= c && c + 1 < w,
        forall|i: int, j: int|
            #[trigger] alive_at(g, i, j) <==> (i == r && c - 1 <= j && j <= c + 1),
    ensures
        step_spec(g).len() == g.len(),
        rectangular(step_spec(g), w),
        forall|i: int, j: int|
            #[trigger] alive_at(step_spec(g), i, j) <==> (j == c && r - 1 <= i && i <= r + 1),
{
    lemma_step_preserves_shape(g);
    assert forall|i: int, j: int|
        #[trigger] alive_at(step_spec(g), i, j) <==> (j == c && r - 1 <= i && i <= r + 1) by {
        if 0 <= i < g.len() && 0 <= j < g[i].len() {
            let n = live_neighbors(g, i, j);
            if i == r && j == c {
                assert(alive_at(g, i, j));
                assert(g[i][j] == Cell::Alive);
                assert(n == 2);
            } else if i == r && (j == c - 1 || j == c + 1) {
                assert(alive_at(g, i, j));
                assert(g[i][j] == Cell::Alive);
                assert(n == 1);
            } else if (i == r - 1 || i == r + 1) && j == c {
                assert(!alive_at(g, i, j));
                assert(g[i][j] == Cell::Dead);
                assert(n == 3);
            } else {
                assert(!alive_at(g, i, j));
                assert(g[i][j] == Cell::Dead);
                assert(n <= 2);
            }
            assert(step_spec(g)[i][j] == next_cell(g[i][j], n));
        }
    }
}

/// The other half of the period: the vertical run of 3 alive cells at
/// column `c`, rows `r - 1 ..= r + 1`, alone on the grid and clear of the
/// edges, becomes the horizontal run at row `r`, columns `c - 1 ..= c + 1`.
pub proof fn lemma_blinker_vertical(g: Seq<Seq<Cell>>, r: int, c: int, w: int)
    requires
        rectangular(g, w),
        1 <= r && r + 1 < g.len(),
        1 <= c && c + 1 < w,
        forall|i: int, j: int|
            #[trigger] alive_at(g, i, j) <==> (j == c && r - 1 <= i && i <= r + 1),
    ensures
        step_spec(g).len() == g.len(),
        rectangular(step_spec(g), w),
        forall|i: int, j: int|
            #[trigger] alive_at(step_spec(g), i, j) <==> (i == r && c - 1 <= j && j <= c + 1),
{
    lemma_step_preserves_shape(g);
    assert forall|i: int, j: int|
        #[trigger] alive_at(step_spec(g), i, j) <==> (i == r && c - 1 <= j && j <= c + 1) by {
        if 0 <= i < g.len() && 0 <= j < g[i].len() {
            let n = live_neighbors(g, i, j);
            if i == r && j == c {
                assert(alive_at(g, i, j));
                assert(g[i][j] == Cell::Alive);
                assert(n == 2);
            } else if j == c && (i == r - 1 || i == r + 1) {
                assert(alive_at(g, i, j));
                assert(g[i][j] == Cell::Alive);
                assert(n == 1);
            } else if (j == c - 1 || j == c + 1) && i == r {
                assert(!alive_at(g, i, j));
                assert(g[i][j] == Cell::Dead);
                assert(n == 3);
            } else {
                assert(!alive_at(g, i, j));
                assert(g[i][j] == Cell::Dead);
                assert(n <= 2);
            }
            assert(step_spec(g)[i][j] == next_cell(g[i][j], n));
        }
    }
}

/// Oscillation: a lone horizontal blinker, clear of the grid edges, returns
/// to exactly its starting matrix after two steps.
pub proof fn lemma_blinker_period_two(g: Seq<Seq<Cell>>, r: int, c: int, w: int)
    requires
        rectangular(g, w),
        1 <= r && r + 1 < g.len(),
        1 <= c && c + 1 < w,
        forall|i: int, j: int|
            #[trigger] alive_at(g, i, j) <==> (i == r && c - 1 <= j && j <= c + 1),
    ensures
        step_spec(step_spec(g)) == g,
{
    lemma_blinker_horizontal(g, r, c, w);
    lemma_blinker_vertical(step_spec(g), r, c, w);
    let g2 = step_spec(step_spec(g));
    lemma_step_preserves_shape(g);
    lemma_step_preserves_shape(step_spec(g));
    assert forall|i: int| 0 <= i < g.len() implies g2[i] =~= g[i] by {
        assert forall|j: int| 0 <= j < g[i].len() implies g2[i][j] == g[i][j] by {
            assert(alive_at(g2, i, j) <==> alive_at(g, i, j));
        }
    }
    assert(g2 =~= g);
}

} // verus!
