use chip8::keyboard::Keyboard;

#[test]
fn key_states() {
    let mut k = Keyboard::new();
    for hex in 0..16u8 {
        assert!(!k.is_key_pressed(hex));
    }
    k.set_key_state(0x7, true);
    assert!(k.is_key_pressed(0x7));
    assert!(!k.is_key_pressed(0x8));
    k.set_key_state(0x7, false);
    assert!(!k.is_key_pressed(0x7));
    k.set_key_state(0x20, true);
    assert!(!k.is_key_pressed(0x20));
}

#[test]
fn key_layout() {
    assert_eq!(Keyboard::remap_code(0x0), 'v');
    assert_eq!(Keyboard::remap_code(0x1), 'q');
    assert_eq!(Keyboard::remap_code(0xA), '1');
    assert_eq!(Keyboard::remap_code(0xF), 'f');
    assert_eq!(Keyboard::remap_key('x'), Some(0x8));
    assert_eq!(Keyboard::remap_key('4'), Some(0xD));
    assert_eq!(Keyboard::remap_key('p'), None);
    assert_eq!(Keyboard::remap_key('V'), None);
}

#[test]
fn key_layout_round_trip() {
    for hex in 0..16u8 {
        assert_eq!(Keyboard::remap_key(Keyboard::remap_code(hex)), Some(hex));
    }
}
