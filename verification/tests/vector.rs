use grafx::physics::{Color, Vector2, Vector3};

#[test]
fn vector2_keeps_its_components() {
    let v = Vector2::new(3.0f32, 4.0);
    assert_eq!((v.get_x(), v.get_y()), (3.0, 4.0));
}

#[test]
fn vector2_setters_change_one_component_each() {
    let mut v = Vector2::new(1, 2);
    v.set_x(10);
    assert_eq!((v.get_x(), v.get_y()), (10, 2));
    v.set_y(20);
    assert_eq!((v.get_x(), v.get_y()), (10, 20));
    v.set(-1, -2);
    assert_eq!((v.get_x(), v.get_y()), (-1, -2));
}

#[test]
fn vector3_keeps_its_components() {
    let v = Vector3::new(1.0f32, 2.0, 3.0);
    assert_eq!((v.get_x(), v.get_y(), v.get_z()), (1.0, 2.0, 3.0));
}

#[test]
fn vector3_setters_change_one_component_each() {
    let mut v = Vector3::new(1, 2, 3);
    v.set_x(10);
    assert_eq!((v.get_x(), v.get_y(), v.get_z()), (10, 2, 3));
    v.set_y(20);
    assert_eq!((v.get_x(), v.get_y(), v.get_z()), (10, 20, 3));
    v.set_z(30);
    assert_eq!((v.get_x(), v.get_y(), v.get_z()), (10, 20, 30));
    v.set(7, 8, 9);
    assert_eq!((v.get_x(), v.get_y(), v.get_z()), (7, 8, 9));
}

#[test]
fn color_keeps_its_channels_in_order() {
    let c = Color::new(0.1f32, 0.2, 0.3, 0.4);
    assert_eq!((c.red, c.green, c.blue, c.alpha), (0.1, 0.2, 0.3, 0.4));
}
