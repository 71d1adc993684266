use conway_life::CellState;
use conway_life::GameOfLife;

fn alive_cells(g: &GameOfLife, width: usize, height: usize) -> Vec<(usize, usize)> {
    let mut cells = Vec::new();
    for y in 0..height {
        for x in 0..width {
            if g.is_alive(x, y) {
                cells.push((x, y));
            }
        }
    }
    cells
}

#[test]
fn new_grid_is_all_dead() {
    let g = GameOfLife::new(10, 8);
    assert_eq!(alive_cells(&g, 10, 8), Vec::new());
}

#[test]
fn step_of_all_dead_grid_stays_all_dead() {
    let mut g = GameOfLife::new(10, 10);
    g.next_generation();
    assert_eq!(alive_cells(&g, 10, 10), Vec::new());
}

#[test]
fn block_is_a_fixed_point() {
    let mut g = GameOfLife::new(10, 10);
    g.add_block(3, 3);
    let expected = vec![(3, 3), (4, 3), (3, 4), (4, 4)];
    assert_eq!(alive_cells(&g, 10, 10), expected);
    g.next_generation();
    assert_eq!(alive_cells(&g, 10, 10), expected);
    g.next_generation();
    assert_eq!(alive_cells(&g, 10, 10), expected);
}

#[test]
fn blinker_has_period_two() {
    let mut g = GameOfLife::new(11, 11);
    g.add_blinker(4, 5);
    let horizontal = vec![(4, 5), (5, 5), (6, 5)];
    assert_eq!(alive_cells(&g, 11, 11), horizontal);
    g.next_generation();
    let vertical = vec![(5, 4), (5, 5), (5, 6)];
    assert_eq!(alive_cells(&g, 11, 11), vertical);
    g.next_generation();
    assert_eq!(alive_cells(&g, 11, 11), horizontal);
}

#[test]
fn glider_translates_by_one_one_after_four_steps() {
    let mut g = GameOfLife::new(12, 12);
    g.add_glider(3, 3);
    assert_eq!(alive_cells(&g, 12, 12), vec![(4, 3), (5, 4), (3, 5), (4, 5), (5, 5)]);
    for _ in 0..4 {
        g.next_generation();
    }
    assert_eq!(alive_cells(&g, 12, 12), vec![(5, 4), (6, 5), (4, 6), (5, 6), (6, 6)]);
}

#[test]
fn corner_cell_counts_at_most_three_neighbors() {
    let mut g = GameOfLife::new(5, 5);
    // Fill the whole neighborhood of the corner and more.
    g.add_block(0, 0);
    g.add_block(1, 1);
    // (0,0) has 8 positions around it, but only (1,0), (0,1) and (1,1) exist.
    assert!(g.is_alive(0, 0));
    assert_eq!(g.count_live_neighbors(0, 0), 3);
}

#[test]
fn corner_cell_alone_has_zero_neighbors() {
    let mut g = GameOfLife::new(5, 5);
    let single = [(0usize, 0usize)];
    g.add_pattern(0, 0, &single);
    assert!(g.is_alive(0, 0));
    assert_eq!(g.count_live_neighbors(0, 0), 0);
}

#[test]
fn neighbor_count_sees_all_eight_in_the_interior() {
    let mut g = GameOfLife::new(5, 5);
    let ring = [
        (0usize, 0usize),
        (1, 0),
        (2, 0),
        (0, 1),
        (2, 1),
        (0, 2),
        (1, 2),
        (2, 2),
    ];
    g.add_pattern(1, 1, &ring);
    assert!(!g.is_alive(2, 2));
    assert_eq!(g.count_live_neighbors(2, 2), 8);
}

#[test]
fn apply_rules_matches_the_conway_table() {
    let g = GameOfLife::new(3, 3);
    assert_eq!(g.apply_rules(CellState::Alive, 0), CellState::Dead);
    assert_eq!(g.apply_rules(CellState::Alive, 1), CellState::Dead);
    assert_eq!(g.apply_rules(CellState::Alive, 2), CellState::Alive);
    assert_eq!(g.apply_rules(CellState::Alive, 3), CellState::Alive);
    assert_eq!(g.apply_rules(CellState::Alive, 4), CellState::Dead);
    assert_eq!(g.apply_rules(CellState::Alive, 8), CellState::Dead);
    assert_eq!(g.apply_rules(CellState::Dead, 2), CellState::Dead);
    assert_eq!(g.apply_rules(CellState::Dead, 3), CellState::Alive);
    assert_eq!(g.apply_rules(CellState::Dead, 4), CellState::Dead);
}

#[test]
fn is_valid_position_matches_the_bounds() {
    let g = GameOfLife::new(4, 6);
    assert!(g.is_valid_position(0, 0));
    assert!(g.is_valid_position(3, 5));
    assert!(!g.is_valid_position(4, 0));
    assert!(!g.is_valid_position(0, 6));
    assert!(!g.is_valid_position(-1, 0));
    assert!(!g.is_valid_position(0, -1));
}

#[test]
fn clear_grid_kills_every_cell() {
    let mut g = GameOfLife::new(7, 7);
    g.add_block(2, 2);
    g.add_blinker(4, 1);
    g.clear_grid();
    assert_eq!(alive_cells(&g, 7, 7), Vec::new());
}

#[test]
fn overcrowded_cells_die_and_three_neighbor_cells_are_born() {
    // A 3x3 solid square: the center dies of overpopulation, the edge
    // midpoints survive, the corners survive, and four outside midpoints are
    // born -- after one step only the center is missing and a plus of births
    // appears around it.
    let mut g = GameOfLife::new(9, 9);
    let square = [
        (0usize, 0usize),
        (1, 0),
        (2, 0),
        (0, 1),
        (1, 1),
        (2, 1),
        (0, 2),
        (1, 2),
        (2, 2),
    ];
    g.add_pattern(3, 3, &square);
    g.next_generation();
    assert!(!g.is_alive(4, 4));
    assert!(g.is_alive(4, 2));
    assert!(g.is_alive(2, 4));
    assert!(g.is_alive(6, 4));
    assert!(g.is_alive(4, 6));
    assert!(g.is_alive(3, 3));
    assert!(!g.is_alive(4, 3));
}
