use darkest::text::{Color, Position, Size};

#[test]
fn color_size_position_hold_their_fields() {
    let c = Color::rgb(1, 2, 3);
    assert_eq!((c.r, c.g, c.b), (1, 2, 3));
    let s = Size::new(640, 480);
    assert_eq!((s.width, s.height), (640, 480));
    let p = Position::new(-5, 9);
    assert_eq!((p.x, p.y), (-5, 9));
    assert_eq!(Color::default(), Color::rgb(0, 0, 0));
}
