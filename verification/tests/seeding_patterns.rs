use conway_life::GameOfLife;

fn alive_set(g: &GameOfLife, width: usize, height: usize) -> Vec<(usize, usize)> {
    let mut cells = Vec::new();
    for y in 0..height {
        for x in 0..width {
            if g.is_alive(x, y) {
                cells.push((x, y));
            }
        }
    }
    cells
}

#[test]
fn zero_density_seeding_leaves_the_grid_all_dead() {
    let mut g = GameOfLife::new(20, 20);
    g.add_random_cells(0, 100);
    assert_eq!(alive_set(&g, 20, 20), Vec::new());
}

#[test]
fn full_density_seeding_fills_the_whole_grid() {
    let mut g = GameOfLife::new(20, 20);
    g.add_random_cells(100, 100);
    assert_eq!(alive_set(&g, 20, 20).len(), 400);
}

#[test]
fn random_seeding_only_ever_adds_live_cells() {
    let mut g = GameOfLife::new(30, 30);
    g.add_block(10, 10);
    g.add_random_cells(15, 100);
    assert!(g.is_alive(10, 10));
    assert!(g.is_alive(11, 10));
    assert!(g.is_alive(10, 11));
    assert!(g.is_alive(11, 11));
}

#[test]
fn pattern_placement_clips_at_the_edge_without_wrapping() {
    let mut g = GameOfLife::new(5, 5);
    g.add_block(4, 4);
    // Only the one in-bounds cell of the block is set; nothing appears on the
    // opposite edges.
    assert_eq!(alive_set(&g, 5, 5), vec![(4, 4)]);
}

#[test]
fn pattern_placement_entirely_outside_changes_nothing() {
    let mut g = GameOfLife::new(5, 5);
    g.add_glider(7, 9);
    assert_eq!(alive_set(&g, 5, 5), Vec::new());
}

#[test]
fn blinker_clipped_at_the_right_edge_keeps_only_its_head() {
    let mut g = GameOfLife::new(5, 5);
    g.add_blinker(3, 2);
    assert_eq!(alive_set(&g, 5, 5), vec![(3, 2), (4, 2)]);
}

#[test]
fn toad_stamp_places_its_exact_cells() {
    let mut g = GameOfLife::new(10, 10);
    g.add_toad(2, 3);
    assert_eq!(alive_set(&g, 10, 10), vec![(3, 3), (4, 3), (5, 3), (2, 4), (3, 4), (4, 4)]);
}

#[test]
fn beacon_stamp_places_its_exact_cells() {
    let mut g = GameOfLife::new(10, 10);
    g.add_beacon(1, 1);
    assert_eq!(alive_set(&g, 10, 10), vec![(1, 1), (2, 1), (1, 2), (4, 3), (3, 4), (4, 4)]);
}

#[test]
fn beehive_stamp_places_its_exact_cells() {
    let mut g = GameOfLife::new(10, 10);
    g.add_beehive(2, 2);
    assert_eq!(alive_set(&g, 10, 10), vec![(3, 2), (4, 2), (2, 3), (5, 3), (3, 4), (4, 4)]);
}

#[test]
fn beehive_is_a_fixed_point() {
    let mut g = GameOfLife::new(10, 10);
    g.add_beehive(2, 2);
    let before = alive_set(&g, 10, 10);
    g.next_generation();
    assert_eq!(alive_set(&g, 10, 10), before);
}

#[test]
fn toad_has_period_two() {
    let mut g = GameOfLife::new(12, 12);
    g.add_toad(4, 4);
    let before = alive_set(&g, 12, 12);
    g.next_generation();
    assert_ne!(alive_set(&g, 12, 12), before);
    g.next_generation();
    assert_eq!(alive_set(&g, 12, 12), before);
}

#[test]
fn beacon_has_period_two() {
    let mut g = GameOfLife::new(12, 12);
    g.add_beacon(4, 4);
    let before = alive_set(&g, 12, 12);
    g.next_generation();
    assert_ne!(alive_set(&g, 12, 12), before);
    g.next_generation();
    assert_eq!(alive_set(&g, 12, 12), before);
}

#[test]
fn pulsar_has_period_three() {
    let mut g = GameOfLife::new(30, 30);
    g.add_pulsar(8, 8);
    let before = alive_set(&g, 30, 30);
    g.next_generation();
    assert_ne!(alive_set(&g, 30, 30), before);
    g.next_generation();
    assert_ne!(alive_set(&g, 30, 30), before);
    g.next_generation();
    assert_eq!(alive_set(&g, 30, 30), before);
}

#[test]
fn lightweight_spaceship_stamp_places_its_exact_cells() {
    let mut g = GameOfLife::new(12, 12);
    g.add_lightweight_spaceship(1, 1);
    assert_eq!(
        alive_set(&g, 12, 12),
        vec![(1, 1), (4, 1), (5, 2), (1, 3), (5, 3), (2, 4), (3, 4), (4, 4), (5, 4)]
    );
}

#[test]
fn initialize_stamps_every_catalog_pattern_over_the_noise() {
    let mut g = GameOfLife::new(100, 100);
    g.initialize();
    // Block at (5,5) and at (90,90).
    for (bx, by) in [(5usize, 5usize), (90, 90)] {
        for (dx, dy) in [(0usize, 0usize), (1, 0), (0, 1), (1, 1)] {
            assert!(g.is_alive(bx + dx, by + dy));
        }
    }
    // Blinker at (25,25).
    assert!(g.is_alive(25, 25) && g.is_alive(26, 25) && g.is_alive(27, 25));
    // Gliders at (15,15) and (70,10).
    assert!(g.is_alive(16, 15) && g.is_alive(17, 16) && g.is_alive(15, 17));
    assert!(g.is_alive(71, 10) && g.is_alive(72, 11) && g.is_alive(70, 12));
    // Toad at (35,35), Beacon at (45,45), Beehive at (60,60).
    assert!(g.is_alive(36, 35) && g.is_alive(35, 36));
    assert!(g.is_alive(45, 45) && g.is_alive(48, 48));
    assert!(g.is_alive(61, 60) && g.is_alive(60, 61));
    // Lightweight spaceship at (10,50) and Pulsar at (50,20).
    assert!(g.is_alive(10, 50) && g.is_alive(14, 53));
    assert!(g.is_alive(52, 20) && g.is_alive(50, 22) && g.is_alive(62, 30));
}

#[test]
fn initialize_keeps_the_grid_dimensions() {
    let mut g = GameOfLife::new(100, 100);
    g.initialize();
    let frame = g.to_gif_frame_data();
    assert_eq!(frame.len(), 100 * 100);
}
