use chip8::display::Display;

fn lit(d: &Display) -> Vec<(u8, u8)> {
    let mut v = Vec::new();
    for row in 0..32u8 {
        for col in 0..64u8 {
            if d.pixel(col, row) {
                v.push((col, row));
            }
        }
    }
    v
}

#[test]
fn new_display_is_blank() {
    let d = Display::new();
    assert_eq!(lit(&d), vec![]);
}

#[test]
fn draw_sprite_lights_the_set_bits() {
    let mut d = Display::new();
    let hit = d.draw_sprite(0, 0, &[0b1010_0000, 0b0000_0001]);
    assert!(!hit);
    assert_eq!(lit(&d), vec![(0, 0), (2, 0), (7, 1)]);
}

#[test]
fn draw_sprite_twice_erases_and_reports_it() {
    let mut d = Display::new();
    assert!(!d.draw_sprite(10, 5, &[0xFF, 0x81]));
    assert_eq!(lit(&d).len(), 10);
    assert!(d.draw_sprite(10, 5, &[0xFF, 0x81]));
    assert_eq!(lit(&d), vec![]);
}

#[test]
fn draw_sprite_reports_no_hit_beside_lit_pixels() {
    let mut d = Display::new();
    assert!(!d.draw_sprite(0, 0, &[0b1000_0000]));
    assert!(!d.draw_sprite(0, 0, &[0b0100_0000]));
    assert_eq!(lit(&d), vec![(0, 0), (1, 0)]);
    assert!(d.draw_sprite(0, 0, &[0b1100_0000, 0b1000_0000]));
    assert_eq!(lit(&d), vec![(0, 1)]);
}

#[test]
fn draw_sprite_wraps_round_the_right_edge() {
    let mut d = Display::new();
    assert!(!d.draw_sprite(62, 0, &[0b1111_0000]));
    assert_eq!(lit(&d), vec![(0, 0), (1, 0), (62, 0), (63, 0)]);
}

#[test]
fn draw_sprite_wraps_round_the_bottom_edge() {
    let mut d = Display::new();
    assert!(!d.draw_sprite(3, 31, &[0x80, 0x80, 0x80]));
    assert_eq!(lit(&d), vec![(3, 0), (3, 1), (3, 31)]);
}

#[test]
fn draw_sprite_wraps_its_starting_point() {
    let mut d = Display::new();
    assert!(!d.draw_sprite(64 + 5, 32 + 7, &[0x80]));
    assert_eq!(lit(&d), vec![(5, 7)]);
    let mut e = Display::new();
    assert!(!e.draw_sprite(255, 255, &[0xC0, 0x80]));
    assert_eq!(lit(&e), vec![(63, 0), (0, 31), (63, 31)]);
}

#[test]
fn draw_sprite_of_no_rows_draws_nothing() {
    let mut d = Display::new();
    assert!(!d.draw_sprite(0, 0, &[0xFF]));
    assert!(!d.draw_sprite(0, 0, &[]));
    assert_eq!(lit(&d).len(), 8);
}

#[test]
fn draw_sprite_as_tall_as_the_surface() {
    let mut d = Display::new();
    assert!(!d.draw_sprite(0, 4, &[0x80; 32]));
    assert_eq!(lit(&d).len(), 32);
    for row in 0..32u8 {
        assert!(d.pixel(0, row));
    }
}

#[test]
fn pixel_wraps_its_coordinates() {
    let mut d = Display::new();
    assert!(!d.draw_sprite(1, 2, &[0x80]));
    assert!(d.pixel(1, 2));
    assert!(d.pixel(65, 2));
    assert!(d.pixel(1, 34));
    assert!(d.pixel(129, 66));
    assert!(!d.pixel(2, 2));
    assert!(!d.pixel(1, 3));
}

#[test]
fn clear_unlights_every_pixel() {
    let mut d = Display::new();
    assert!(!d.draw_sprite(0, 0, &[0xFF, 0xFF, 0xFF]));
    d.clear();
    assert_eq!(lit(&d), vec![]);
}
