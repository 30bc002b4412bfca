use chip8::display::{Display, HEIGHT, WIDTH};

fn set_pixels(d: &Display) -> Vec<(usize, usize)> {
    let mut out = Vec::new();
    for y in 0..HEIGHT {
        for x in 0..WIDTH {
            if d.pixel(x, y) {
                out.push((x, y));
            }
        }
    }
    out
}

#[test]
fn drawing_twice_collides_and_cancels() {
    let mut d = Display::new();
    assert!(!d.draw(10, 5, &[0xFF]));
    assert_eq!(set_pixels(&d), (10..18).map(|x| (x, 5)).collect::<Vec<_>>());
    assert!(d.draw(10, 5, &[0xFF]));
    assert!(set_pixels(&d).is_empty());
}

#[test]
fn partial_overlap_collides() {
    let mut d = Display::new();
    assert!(!d.draw(0, 0, &[0b1000_0000]));
    assert!(!d.draw(1, 0, &[0b1000_0000]));
    assert!(d.draw(0, 0, &[0b1100_0000]));
    assert!(set_pixels(&d).is_empty());
}

#[test]
fn sprite_at_right_edge_is_clipped() {
    let mut d = Display::new();
    assert!(!d.draw(60, 0, &[0xFF]));
    assert_eq!(set_pixels(&d), vec![(60, 0), (61, 0), (62, 0), (63, 0)]);
    // nothing wrapped round to the left edge or the next row
    assert!(!d.pixel(0, 0));
    assert!(!d.pixel(0, 1));
}

#[test]
fn sprite_at_bottom_edge_is_clipped() {
    let mut d = Display::new();
    assert!(!d.draw(0, 30, &[0x80, 0x80, 0x80, 0x80]));
    assert_eq!(set_pixels(&d), vec![(0, 30), (0, 31)]);
}

#[test]
fn sprite_fully_off_grid_changes_nothing() {
    let mut d = Display::new();
    assert!(!d.draw(64, 0, &[0xFF]));
    assert!(!d.draw(0, 32, &[0xFF]));
    assert!(!d.draw(255, 255, &[0xFF, 0xFF]));
    assert!(set_pixels(&d).is_empty());
}

#[test]
fn bits_are_drawn_most_significant_first() {
    let mut d = Display::new();
    d.draw(0, 0, &[0b1010_0001, 0b0100_0000]);
    assert_eq!(set_pixels(&d), vec![(0, 0), (2, 0), (7, 0), (1, 1)]);
}

#[test]
fn clear_and_change_flag() {
    let mut d = Display::new();
    assert!(d.take_changed());
    assert!(!d.take_changed());
    d.draw(3, 3, &[0xF0]);
    assert!(d.take_changed());
    d.clear();
    assert!(d.take_changed());
    assert!(set_pixels(&d).is_empty());
    assert_eq!(d.grid().len(), WIDTH * HEIGHT);
}

#[test]
fn empty_sprite_draws_nothing() {
    let mut d = Display::new();
    assert!(!d.draw(0, 0, &[]));
    assert!(set_pixels(&d).is_empty());
}
