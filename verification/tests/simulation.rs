use game_of_life::alive_neighbors_count;
use game_of_life::Cell;
use game_of_life::Grid;

fn grid_from(live: &[(usize, usize)], width: usize, height: usize) -> Grid {
    let mut cells = vec![vec![Cell::Dead; width]; height];
    for &(r, c) in live {
        cells[r][c] = Cell::Alive;
    }
    Grid::new(width as i32, height as i32, cells).expect("valid dimensions")
}

fn snapshot(grid: &Grid) -> Vec<Vec<Cell>> {
    let mut rows = Vec::new();
    for r in 0..grid.height() {
        let mut row = Vec::new();
        for c in 0..grid.width() {
            row.push(grid.cell_at(r, c));
        }
        rows.push(row);
    }
    rows
}

#[test]
fn cell_is_alive() {
    assert!(Cell::Alive.is_alive());
    assert!(!Cell::Dead.is_alive());
}

#[test]
fn new_rejects_zero_width() {
    assert!(Grid::new(0, 3, vec![vec![], vec![], vec![]]).is_none());
}

#[test]
fn new_rejects_zero_height() {
    assert!(Grid::new(3, 0, vec![]).is_none());
}

#[test]
fn new_rejects_row_count_mismatch() {
    let cells = vec![vec![Cell::Dead; 3]; 2];
    assert!(Grid::new(3, 3, cells).is_none());
}

#[test]
fn new_rejects_ragged_rows() {
    let cells = vec![
        vec![Cell::Dead; 3],
        vec![Cell::Dead; 2],
        vec![Cell::Dead; 3],
    ];
    assert!(Grid::new(3, 3, cells).is_none());
}

#[test]
fn new_accepts_valid_matrix() {
    let g = grid_from(&[(1, 2)], 4, 3);
    assert_eq!(g.width(), 4);
    assert_eq!(g.height(), 3);
    assert_eq!(g.cell_at(1, 2), Cell::Alive);
    assert_eq!(g.cell_at(0, 0), Cell::Dead);
}

#[test]
fn determinism_two_runs_agree() {
    let live = [(1, 1), (1, 2), (1, 3), (2, 2), (3, 0)];
    let mut a = grid_from(&live, 5, 5);
    let mut b = grid_from(&live, 5, 5);
    a.tick();
    b.tick();
    assert_eq!(snapshot(&a), snapshot(&b));
    a.tick();
    b.tick();
    assert_eq!(snapshot(&a), snapshot(&b));
}

#[test]
fn corner_with_three_neighbors_becomes_alive() {
    let mut g = grid_from(&[(0, 1), (1, 0), (1, 1)], 3, 3);
    assert_eq!(alive_neighbors_count(0, 0, &g), 3);
    g.tick();
    assert_eq!(g.cell_at(0, 0), Cell::Alive);
}

#[test]
fn out_of_bounds_neighbors_never_count() {
    // A lone corner cell: all 5 out-of-bounds offsets contribute nothing.
    let g = grid_from(&[(0, 0)], 3, 3);
    assert_eq!(alive_neighbors_count(0, 0, &g), 0);
    assert_eq!(alive_neighbors_count(0, 1, &g), 1);
    assert_eq!(alive_neighbors_count(1, 1, &g), 1);
    assert_eq!(alive_neighbors_count(2, 2, &g), 0);
}

#[test]
fn block_still_life_is_unchanged() {
    let mut g = grid_from(&[(1, 1), (1, 2), (2, 1), (2, 2)], 4, 4);
    let before = snapshot(&g);
    g.tick();
    assert_eq!(snapshot(&g), before);
    g.tick();
    assert_eq!(snapshot(&g), before);
}

#[test]
fn blinker_oscillates_with_period_two() {
    let mut g = grid_from(&[(2, 1), (2, 2), (2, 3)], 5, 5);
    let horizontal = snapshot(&g);
    g.tick();
    let vertical = snapshot(&g);
    for r in 0..5i32 {
        for c in 0..5i32 {
            let expected = if c == 2 && (1..=3).contains(&r) {
                Cell::Alive
            } else {
                Cell::Dead
            };
            assert_eq!(vertical[r as usize][c as usize], expected);
        }
    }
    g.tick();
    assert_eq!(snapshot(&g), horizontal);
}

#[test]
fn isolated_cell_dies_of_underpopulation() {
    let mut g = grid_from(&[(1, 1)], 3, 3);
    assert_eq!(alive_neighbors_count(1, 1, &g), 0);
    g.tick();
    assert_eq!(g.cell_at(1, 1), Cell::Dead);
}

#[test]
fn crowded_cell_dies_of_overpopulation() {
    let mut g = grid_from(&[(1, 1), (0, 0), (0, 2), (2, 0), (2, 2)], 3, 3);
    assert_eq!(alive_neighbors_count(1, 1, &g), 4);
    g.tick();
    assert_eq!(g.cell_at(1, 1), Cell::Dead);
}

#[test]
fn dead_cell_with_three_neighbors_is_born() {
    let mut g = grid_from(&[(0, 0), (0, 2), (2, 1)], 3, 3);
    assert_eq!(alive_neighbors_count(1, 1, &g), 3);
    g.tick();
    assert_eq!(g.cell_at(1, 1), Cell::Alive);
}

#[test]
fn dead_cell_with_two_neighbors_stays_dead() {
    let mut g = grid_from(&[(0, 0), (0, 2)], 3, 3);
    assert_eq!(alive_neighbors_count(1, 1, &g), 2);
    g.tick();
    assert_eq!(g.cell_at(1, 1), Cell::Dead);
}

#[test]
fn dead_cell_with_four_neighbors_stays_dead() {
    let mut g = grid_from(&[(0, 0), (0, 2), (2, 0), (2, 2)], 3, 3);
    assert_eq!(alive_neighbors_count(1, 1, &g), 4);
    g.tick();
    assert_eq!(g.cell_at(1, 1), Cell::Dead);
}

#[test]
fn survival_with_two_or_three_neighbors() {
    // (1,1) is alive with 3 alive neighbors, (1,2) with 2.
    let mut g = grid_from(&[(0, 0), (0, 2), (1, 1), (1, 2)], 4, 3);
    assert_eq!(alive_neighbors_count(1, 1, &g), 3);
    assert_eq!(alive_neighbors_count(1, 2, &g), 2);
    g.tick();
    assert_eq!(g.cell_at(1, 1), Cell::Alive);
    assert_eq!(g.cell_at(1, 2), Cell::Alive);
}

#[test]
fn smallest_grid_single_cell() {
    let mut g = grid_from(&[(0, 0)], 1, 1);
    g.tick();
    assert_eq!(g.cell_at(0, 0), Cell::Dead);
    g.tick();
    assert_eq!(g.cell_at(0, 0), Cell::Dead);
}
