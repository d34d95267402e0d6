use grafx::utils::{Advance, Bearing, Character, CharacterType, Size};

#[test]
fn size_keeps_width_and_height() {
    let s = Size::new(7, -3);
    assert_eq!((s.get_width(), s.get_height()), (7, -3));
}

#[test]
fn bearing_keeps_both_offsets() {
    let b = Bearing(2, 9);
    assert_eq!((b.0, b.1), (2, 9));
}

#[test]
fn a_drawn_character_keeps_what_it_was_made_of() {
    let c = Character::new('g', 42, 8, 12, 1, 9, Advance { x: 576, y: -64 });
    assert_eq!(c.get_character(), 'g');
    assert_eq!(c.get_texture(), 42);
    assert_eq!((c.get_size().get_width(), c.get_size().get_height()), (8, 12));
    assert_eq!(*c.get_bearing(), Bearing(1, 9));
    assert_eq!(*c.get_advance(), Advance { x: 576, y: -64 });
    assert!(matches!(
        c.get_type(),
        CharacterType::Normal(42, _, Bearing(1, 9), Advance { x: 576, y: -64 })
    ));
}

#[test]
fn a_control_character_has_no_metrics() {
    let c = Character::control('\n');
    assert_eq!(c.get_character(), '\n');
    assert!(matches!(c.get_type(), CharacterType::Control));
}
