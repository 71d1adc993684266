use conway_life::render::frame_delay_centis;
use conway_life::render::ALIVE_COLOR;
use conway_life::render::DEAD_COLOR;
use conway_life::render::OUT_OF_RANGE_COLOR;
use conway_life::GameOfLife;

#[test]
fn frame_data_has_one_byte_per_cell_in_row_major_order() {
    let mut g = GameOfLife::new(6, 4);
    g.add_block(1, 1);
    g.add_blinker(2, 3);
    let frame = g.to_gif_frame_data();
    assert_eq!(frame.len(), 6 * 4);
    for y in 0..4 {
        for x in 0..6 {
            let value = frame[y * 6 + x];
            assert!(value == 0 || value == 1);
            assert_eq!(value == 1, g.is_alive(x, y));
        }
    }
}

#[test]
fn frame_data_of_empty_grid_is_all_zero() {
    let g = GameOfLife::new(5, 5);
    let frame = g.to_gif_frame_data();
    assert_eq!(frame, vec![0u8; 25]);
}

#[test]
fn get_color_maps_each_state_to_its_fixed_color() {
    let mut g = GameOfLife::new(4, 4);
    g.add_block(0, 0);
    assert_eq!(g.get_color(0, 0), ALIVE_COLOR);
    assert_eq!(g.get_color(0, 0), 0x00FFFFFF);
    assert_eq!(g.get_color(2, 2), DEAD_COLOR);
    assert_eq!(g.get_color(2, 2), 0x00001122);
    assert_eq!(g.get_color(4, 0), OUT_OF_RANGE_COLOR);
    assert_eq!(g.get_color(0, 4), 0x00000000);
}

#[test]
fn render_magnifies_each_cell_into_a_solid_block() {
    let mut g = GameOfLife::new(2, 2);
    let single = [(0usize, 0usize)];
    g.add_pattern(0, 0, &single);
    let scale = 2;
    let mut buffer: Vec<u32> = vec![0; (2 * scale) * (2 * scale)];
    g.render(&mut buffer, scale);
    let window_w = 2 * scale;
    for py in 0..2 * scale {
        for px in 0..2 * scale {
            let expected = if px / scale == 0 && py / scale == 0 {
                ALIVE_COLOR
            } else {
                DEAD_COLOR
            };
            assert_eq!(buffer[py * window_w + px], expected);
        }
    }
}

#[test]
fn render_scale_three_keeps_row_major_layout() {
    let mut g = GameOfLife::new(3, 1);
    let single = [(1usize, 0usize)];
    g.add_pattern(0, 0, &single);
    let mut buffer: Vec<u32> = vec![0; 9 * 3];
    g.render(&mut buffer, 3);
    for py in 0..3 {
        for px in 0..9 {
            let expected = if px / 3 == 1 { ALIVE_COLOR } else { DEAD_COLOR };
            assert_eq!(buffer[py * 9 + px], expected);
        }
    }
}

#[test]
fn frame_delay_is_one_hundred_over_fps_truncated() {
    assert_eq!(frame_delay_centis(10), 10);
    assert_eq!(frame_delay_centis(1), 100);
    assert_eq!(frame_delay_centis(3), 33);
    assert_eq!(frame_delay_centis(30), 3);
    assert_eq!(frame_delay_centis(200), 0);
}
