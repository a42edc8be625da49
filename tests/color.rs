use nerv_geometry::color::Color;

#[test]
fn test_color_from_hex() {
    let color = Color::from_hex("#FF4800").unwrap();
    assert_eq!(color.r, 255);
    assert_eq!(color.g, 72);
    assert_eq!(color.b, 0);
    assert_eq!(color.a, 255);

    let hex = color.to_hex();
    assert_eq!(hex, "#ff4800");
}

#[test]
fn colors_with_alpha_round_trip() {
    let c = Color::from_hex("0a0B0c80").unwrap();
    assert_eq!(c, Color::new(10, 11, 12, 128));
    assert_eq!(c.to_hex(), "#0a0b0c80");
    assert_eq!(Color::rgb(1, 2, 3), Color::new(1, 2, 3, 255));
    assert_eq!(Color::rgb(1, 2, 3).to_hex(), "#010203");
}

#[test]
fn bad_hex_colors_are_refused_with_a_reason() {
    assert_eq!(Color::from_hex("#FFF").unwrap_err(), "Hex color must be 6 or 8 characters");
    assert_eq!(Color::from_hex("").unwrap_err(), "Hex color must be 6 or 8 characters");
    assert_eq!(Color::from_hex("#GG0000").unwrap_err(), "Invalid hex color");
    assert_eq!(Color::from_hex("#-10000").unwrap_err(), "Invalid hex color");
}

#[test]
fn leading_hashes_and_plus_signs_are_accepted() {
    assert_eq!(Color::from_hex("##102030").unwrap(), Color::rgb(16, 32, 48));
    assert_eq!(Color::from_hex("+F0000").unwrap(), Color::rgb(15, 0, 0));
}
