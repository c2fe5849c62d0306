//! The initial pattern provider: builds the fixed startup matrix, an
//! arbitrary but known subset of cells set alive on an otherwise dead grid.

use vstd::prelude::*;
use crate::Cell;
use crate::rows_view;

verus! {

/// Whether position `(r, c)` belongs to the fixed startup pattern.
pub open spec fn default_live(r: int, c: int) -> bool {
    ||| (r == 0 && c == 0)
    ||| (r == 1 && c == 1)
    ||| (r == 1 && c == 2)
    ||| (r == 2 && c == 1)
    ||| (r == 5 && c == 1)
    ||| (r == 5 && c == 2)
    ||| (r == 5 && c == 4)
    ||| (r == 6 && c == 4)
    ||| (r == 5 && c == 5)
    ||| (r == 6 && c == 5)
    ||| (r == 5 && c == 6)
    ||| (r == 1 && c == 5)
    ||| (r == 2 && c == 5)
    ||| (r == 3 && c == 5)
    ||| (r == 9 && c == 3)
    ||| (r == 10 && c == 1)
    ||| (r == 10 && c == 2)
    ||| (r == 14 && c == 0)
    ||| (r == 14 && c == 1)
    ||| (r == 14 && c == 2)
    ||| (r == 2 && c == 12)
    ||| (r == 3 && c == 11)
    ||| (r == 3 && c == 13)
    ||| (r == 3 && c == 15)
    ||| (r == 4 && c == 12)
    ||| (r == 4 && c == 14)
    ||| (r == 4 && c == 15)
    ||| (r == 8 && c == 11)
    ||| (r == 9 && c == 10)
    ||| (r == 9 && c == 12)
    ||| (r == 9 && c == 16)
    ||| (r == 8 && c == 19)
    ||| (r == 8 && c == 20)
    ||| (r == 9 && c == 20)
    ||| (r == 2 && c == 24)
    ||| (r == 3 && c == 23)
    ||| (r == 3 && c == 25)
    ||| (r == 4 && c == 23)
    ||| (r == 4 && c == 25)
    ||| (r == 5 && c == 24)
    ||| (r == 7 && c == 24)
    ||| (r == 7 && c == 27)
    ||| (r == 7 && c == 28)
    ||| (r == 7 && c == 29)
    ||| (r == 8 && c == 25)
    ||| (r == 8 && c == 27)
    ||| (r == 9 && c == 26)
    ||| (r == 14 && c == 15)
    ||| (r == 14 && c == 16)
    ||| (r == 14 && c == 17)
    ||| (r == 13 && c == 12)
    ||| (r == 14 && c == 11)
    ||| (r == 15 && c == 10)
    ||| (r == 16 && c == 9)
    ||| (r == 17 && c == 7)
    ||| (r == 17 && c == 8)
    ||| (r == 12 && c == 21)
    ||| (r == 12 && c == 23)
    ||| (r == 13 && c == 20)
    ||| (r == 13 && c == 22)
    ||| (r == 13 && c == 24)
    ||| (r == 14 && c == 21)
    ||| (r == 14 && c == 23)
    ||| (r == 15 && c == 22)
    ||| (r == 22 && c == 9)
    ||| (r == 23 && c == 8)
    ||| (r == 23 && c == 9)
    ||| (r == 24 && c == 9)
    ||| (r == 25 && c == 8)
    ||| (r == 25 && c == 9)
    ||| (r == 20 && c == 16)
    ||| (r == 21 && c == 17)
    ||| (r == 22 && c == 16)
    ||| (r == 21 && c == 22)
    ||| (r == 22 && c == 22)
    ||| (r == 22 && c == 23)
    ||| (r == 27 && c == 26)
    ||| (r == 27 && c == 27)
    ||| (r == 27 && c == 28)
    ||| (r == 27 && c == 29)
    ||| (r == 27 && c == 30)
    ||| (r == 27 && c == 31)
}

/// The startup matrix of `h` rows and `w` columns: alive exactly on the
/// fixed pattern, dead everywhere else.
pub open spec fn default_pattern_spec(h: nat, w: nat) -> Seq<Seq<Cell>> {
    Seq::new(
        h,
        |r: int| Seq::new(w, |c: int| if default_live(r, c) {
            Cell::Alive
        } else {
            Cell::Dead
        }),
    )
}

/// Set one cell of the matrix alive, leaving everything else unchanged.
fn set_alive_cell(cells: &mut Vec<Vec<Cell>>, r: usize, c: usize)
    requires
        r < old(cells)@.len(),
        c < old(cells)@[r as int]@.len(),
    ensures
        final(cells)@.len() == old(cells)@.len(),
        forall|i: int|
            0 <= i < final(cells)@.len() ==> #[trigger] final(cells)@[i]@.len() == old(
                cells,
            )@[i]@.len(),
        rows_view(final(cells)@) == rows_view(old(cells)@).update(
            r as int,
            rows_view(old(cells)@)[r as int].update(c as int, Cell::Alive),
        ),
{
    cells[r][c] = Cell::Alive;
    assert(rows_view(cells@) =~= rows_view(old(cells)@).update(
        r as int,
        rows_view(old(cells)@)[r as int].update(c as int, Cell::Alive),
    ));
}

/// Build the startup matrix: `y_quantity` rows of `x_quantity` dead cells,
/// then the fixed subset of cells set alive. The dimensions must leave room
/// for the whole pattern.
#[verifier::rlimit(100)]
pub fn get_default_pattern(x_quantity: usize, y_quantity: usize) -> (cells: Vec<Vec<Cell>>)
    requires
        x_quantity >= 32,
        y_quantity >= 28,
    ensures
        cells@.len() == y_quantity,
        forall|r: int| 0 <= r < cells@.len() ==> #[trigger] cells@[r]@.len() == x_quantity,
        rows_view(cells@) == default_pattern_spec(y_quantity as nat, x_quantity as nat),
{
    let mut cells: Vec<Vec<Cell>> = Vec::new();
    let mut r: usize = 0;
    while r < y_quantity
        invariant
            cells@.len() == r,
            r <= y_quantity,
            forall|i: int| 0 <= i < r ==> #[trigger] cells@[i]@.len() == x_quantity,
            forall|i: int, j: int|
                0 <= i < r && 0 <= j < x_quantity ==> #[trigger] cells@[i]@[j] == Cell::Dead,
        decreases y_quantity - r,
    {
        let mut row: Vec<Cell> = Vec::new();
        let mut c: usize = 0;
        while c < x_quantity
            invariant
                row@.len() == c,
                c <= x_quantity,
                forall|j: int| 0 <= j < c ==> #[trigger] row@[j] == Cell::Dead,
            decreases x_quantity - c,
        {
            row.push(Cell::Dead);
            c = c + 1;
        }
        cells.push(row);
        r = r + 1;
    }
    set_alive_cell(&mut cells, 0, 0);
    set_alive_cell(&mut cells, 1, 1);
    set_alive_cell(&mut cells, 1, 2);
    set_alive_cell(&mut cells, 2, 1);
    set_alive_cell(&mut cells, 5, 1);
    set_alive_cell(&mut cells, 5, 2);
    set_alive_cell(&mut cells, 5, 4);
    set_alive_cell(&mut cells, 6, 4);
    set_alive_cell(&mut cells, 5, 5);
    set_alive_cell(&mut cells, 6, 5);
    set_alive_cell(&mut cells, 5, 6);
    set_alive_cell(&mut cells, 1, 5);
    set_alive_cell(&mut cells, 2, 5);
    set_alive_cell(&mut cells, 3, 5);
    set_alive_cell(&mut cells, 9, 3);
    set_alive_cell(&mut cells, 10, 1);
    set_alive_cell(&mut cells, 10, 2);
    set_alive_cell(&mut cells, 14, 0);
    set_alive_cell(&mut cells, 14, 1);
    set_alive_cell(&mut cells, 14, 2);
    set_alive_cell(&mut cells, 2, 12);
    set_alive_cell(&mut cells, 3, 11);
    set_alive_cell(&mut cells, 3, 13);
    set_alive_cell(&mut cells, 3, 15);
    set_alive_cell(&mut cells, 4, 12);
    set_alive_cell(&mut cells, 4, 14);
    set_alive_cell(&mut cells, 4, 15);
    set_alive_cell(&mut cells, 8, 11);
    set_alive_cell(&mut cells, 9, 10);
    set_alive_cell(&mut cells, 9, 12);
    set_alive_cell(&mut cells, 9, 16);
    set_alive_cell(&mut cells, 8, 19);
    set_alive_cell(&mut cells, 8, 20);
    set_alive_cell(&mut cells, 9, 20);
    set_alive_cell(&mut cells, 2, 24);
    set_alive_cell(&mut cells, 3, 23);
    set_alive_cell(&mut cells, 3, 25);
    set_alive_cell(&mut cells, 4, 23);
    set_alive_cell(&mut cells, 4, 25);
    set_alive_cell(&mut cells, 5, 24);
    set_alive_cell(&mut cells, 7, 24);
    set_alive_cell(&mut cells, 7, 27);
    set_alive_cell(&mut cells, 7, 28);
    set_alive_cell(&mut cells, 7, 29);
    set_alive_cell(&mut cells, 8, 25);
    set_alive_cell(&mut cells, 8, 27);
    set_alive_cell(&mut cells, 9, 26);
    set_alive_cell(&mut cells, 14, 15);
    set_alive_cell(&mut cells, 14, 16);
    set_alive_cell(&mut cells, 14, 17);
    set_alive_cell(&mut cells, 13, 12);
    set_alive_cell(&mut cells, 14, 11);
    set_alive_cell(&mut cells, 15, 10);
    set_alive_cell(&mut cells, 16, 9);
    set_alive_cell(&mut cells, 17, 7);
    set_alive_cell(&mut cells, 17, 8);
    set_alive_cell(&mut cells, 12, 21);
    set_alive_cell(&mut cells, 12, 23);
    set_alive_cell(&mut cells, 13, 20);
    set_alive_cell(&mut cells, 13, 22);
    set_alive_cell(&mut cells, 13, 24);
    set_alive_cell(&mut cells, 14, 21);
    set_alive_cell(&mut cells, 14, 23);
    set_alive_cell(&mut cells, 15, 22);
    set_alive_cell(&mut cells, 22, 9);
    set_alive_cell(&mut cells, 23, 8);
    set_alive_cell(&mut cells, 23, 9);
    set_alive_cell(&mut cells, 24, 9);
    set_alive_cell(&mut cells, 25, 8);
    set_alive_cell(&mut cells, 25, 9);
    set_alive_cell(&mut cells, 20, 16);
    set_alive_cell(&mut cells, 21, 17);
    set_alive_cell(&mut cells, 22, 16);
    set_alive_cell(&mut cells, 21, 22);
    set_alive_cell(&mut cells, 22, 22);
    set_alive_cell(&mut cells, 22, 23);
    set_alive_cell(&mut cells, 27, 26);
    set_alive_cell(&mut cells, 27, 27);
    set_alive_cell(&mut cells, 27, 28);
    set_alive_cell(&mut cells, 27, 29);
    set_alive_cell(&mut cells, 27, 30);
    set_alive_cell(&mut cells, 27, 31);
    assert(rows_view(cells@) =~~= default_pattern_spec(y_quantity as nat, x_quantity as nat));
    cells
}

} // verus!
