use chip8::display::{Display, NUM_PIXELS, PIXEL_OFF, PIXEL_ON, WINDOW_HEIGHT, WINDOW_WIDTH};

fn lit(display: &Display) -> Vec<usize> {
    (0..NUM_PIXELS).filter(|&p| display.pixels[p]).collect()
}

#[test]
fn new_display_is_blank() {
    let display = Display::new();
    assert_eq!(WINDOW_WIDTH * WINDOW_HEIGHT, NUM_PIXELS);
    assert_eq!(display.pixels.len(), 2048);
    assert!(lit(&display).is_empty());
}

#[test]
fn positions_wrap_modulo_the_screen_size() {
    let display = Display::new();
    assert_eq!(display.get_x_postion(0), 0);
    assert_eq!(display.get_x_postion(63), 63);
    assert_eq!(display.get_x_postion(64), 0);
    assert_eq!(display.get_x_postion(130), 2);
    assert_eq!(display.get_y_postion(31), 31);
    assert_eq!(display.get_y_postion(32), 0);
    assert_eq!(display.get_y_postion(70), 6);
}

#[test]
fn set_pixels_toggles() {
    let mut display = Display::new();
    display.set_pixels(100);
    assert!(display.is_pixel_on(100));
    assert_eq!(display.get_pixel(100), PIXEL_ON);
    assert_eq!(display.get_pixel(100), 0xFFFFFF);
    assert_eq!(display.get_pixel(101), PIXEL_OFF);
    assert_eq!(lit(&display), vec![100]);
    display.set_pixels(100);
    assert!(!display.is_pixel_on(100));
    assert_eq!(display.get_pixel(100), 0);
}

#[test]
fn set_pixel_xor_reports_collision_and_wraps() {
    let mut display = Display::new();
    assert!(!display.set_pixel_xor(3, 2));
    assert_eq!(lit(&display), vec![2 * 64 + 3]);
    assert!(display.set_pixel_xor(3 + 64, 2 + 32));
    assert!(lit(&display).is_empty());
    assert!(!display.set_pixel_xor(64, 32));
    assert_eq!(lit(&display), vec![0]);
}

#[test]
fn clear_turns_everything_off() {
    let mut display = Display::new();
    display.set_pixels(0);
    display.set_pixels(2047);
    display.clear();
    assert!(lit(&display).is_empty());
}

#[test]
fn sprite_rows_are_drawn_highest_bit_leftmost() {
    let mut display = Display::new();
    assert!(!display.draw_sprite(4, 1, &[0b1010_0001, 0b0100_0000]));
    assert_eq!(lit(&display), vec![64 + 4, 64 + 6, 64 + 11, 128 + 5]);
}

#[test]
fn sprite_drawn_twice_vanishes_with_collision() {
    let mut display = Display::new();
    assert!(!display.draw_sprite(0, 0, &[0xFF]));
    assert_eq!(lit(&display), vec![0, 1, 2, 3, 4, 5, 6, 7]);
    assert!(display.draw_sprite(0, 0, &[0xFF]));
    assert!(lit(&display).is_empty());
}

#[test]
fn sprite_wraps_each_axis_on_its_own() {
    let mut display = Display::new();
    assert!(!display.draw_sprite(63, 31, &[0b1100_0000, 0b1000_0001]));
    // Row 31: columns 63 and 0. Row 0: columns 63 and 6.
    assert_eq!(lit(&display), vec![6, 63, 31 * 64, 31 * 64 + 63]);
}

#[test]
fn sprite_origin_is_taken_modulo_the_screen() {
    let mut a = Display::new();
    let mut b = Display::new();
    a.draw_sprite(64 + 5, 32 + 7, &[0x81, 0x42]);
    b.draw_sprite(5, 7, &[0x81, 0x42]);
    assert_eq!(a.pixels, b.pixels);
    assert_eq!(lit(&a), vec![7 * 64 + 5, 7 * 64 + 12, 8 * 64 + 6, 8 * 64 + 11]);
}

#[test]
fn partial_overlap_collides_and_leaves_the_difference() {
    let mut display = Display::new();
    display.draw_sprite(0, 0, &[0b1111_0000]);
    assert!(display.draw_sprite(2, 0, &[0b1111_0000]));
    assert_eq!(lit(&display), vec![0, 1, 4, 5]);
    assert!(!display.draw_sprite(10, 0, &[0b1111_0000]));
}

#[test]
fn empty_and_blank_sprites_draw_nothing() {
    let mut display = Display::new();
    display.set_pixels(5);
    assert!(!display.draw_sprite(0, 0, &[]));
    assert!(!display.draw_sprite(0, 0, &[0x00, 0x00]));
    assert_eq!(lit(&display), vec![5]);
}

#[test]
fn sprite_as_tall_as_the_screen_covers_each_row_once() {
    let mut display = Display::new();
    let sprite = [0x80u8; 32];
    assert!(!display.draw_sprite(0, 16, &sprite));
    assert_eq!(lit(&display), (0..32).map(|row| row * 64).collect::<Vec<_>>());
}

#[test]
fn default_display_is_blank() {
    assert!(lit(&Display::default()).is_empty());
}
