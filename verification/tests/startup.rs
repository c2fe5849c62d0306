use game_of_life::pattern::get_default_pattern;
use game_of_life::Cell;
use game_of_life::Grid;

#[test]
fn default_pattern_has_requested_dimensions() {
    let cells = get_default_pattern(40, 30);
    assert_eq!(cells.len(), 30);
    for row in &cells {
        assert_eq!(row.len(), 40);
    }
}

#[test]
fn default_pattern_sets_the_fixed_cells() {
    let cells = get_default_pattern(32, 28);
    assert_eq!(cells[0][0], Cell::Alive);
    assert_eq!(cells[1][1], Cell::Alive);
    assert_eq!(cells[14][0], Cell::Alive);
    assert_eq!(cells[27][31], Cell::Alive);
    assert_eq!(cells[27][26], Cell::Alive);
    assert_eq!(cells[0][1], Cell::Dead);
    assert_eq!(cells[26][31], Cell::Dead);
    assert_eq!(cells[13][13], Cell::Dead);
}

#[test]
fn default_pattern_fills_extra_space_with_dead_cells() {
    let cells = get_default_pattern(50, 40);
    for r in 28..40 {
        for c in 0..50 {
            assert_eq!(cells[r][c], Cell::Dead);
        }
    }
    for r in 0..28 {
        for c in 32..50 {
            assert_eq!(cells[r][c], Cell::Dead);
        }
    }
}

#[test]
fn default_pattern_builds_a_valid_grid() {
    let cells = get_default_pattern(40, 30);
    let g = Grid::new(40, 30, cells).expect("pattern matches the dimensions");
    assert_eq!(g.width(), 40);
    assert_eq!(g.height(), 30);
    assert_eq!(g.cell_at(0, 0), Cell::Alive);
}
