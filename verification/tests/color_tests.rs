use gpui_ui_kit::color::Color;

#[test]
fn test_color_hex_conversion() {
    let color = Color::from_hex(0xff5500);
    assert_eq!(color.r, 255);
    assert_eq!(color.g, 85);
    assert_eq!(color.b, 0);
    assert_eq!(color.a, 255);
    assert_eq!(color.to_hex_string(), "#ff5500");
}

#[test]
fn test_color_hex_string_parsing() {
    let color = Color::from_hex_string("#ff5500").unwrap();
    assert_eq!(color.r, 255);
    assert_eq!(color.g, 85);
    assert_eq!(color.b, 0);

    let color_short = Color::from_hex_string("#f50").unwrap();
    assert_eq!(color_short.r, 255);
    assert_eq!(color_short.g, 85);
    assert_eq!(color_short.b, 0);
}

#[test]
fn hex_alpha_channels() {
    let c = Color::from_hex_alpha(0x11223344);
    assert_eq!((c.r, c.g, c.b, c.a), (0x11, 0x22, 0x33, 0x44));
    assert_eq!(c.to_hex_string(), "#11223344");
}

#[test]
fn from_hex_ignores_high_bits() {
    let c = Color::from_hex(0xAB123456);
    assert_eq!((c.r, c.g, c.b, c.a), (0x12, 0x34, 0x56, 255));
}

#[test]
fn hex_string_roundtrip_examples() {
    for c in [
        Color::new(0, 0, 0, 0),
        Color::new(255, 255, 255, 255),
        Color::new(1, 2, 3, 254),
        Color::rgb(0xab, 0xcd, 0xef),
    ] {
        assert_eq!(Color::from_hex_string(&c.to_hex_string()), Some(c));
    }
}

#[test]
fn hex_string_parsing_edge_cases() {
    assert_eq!(Color::from_hex_string("FF5500"), Some(Color::rgb(255, 85, 0)));
    assert_eq!(Color::from_hex_string("##ff5500"), Some(Color::rgb(255, 85, 0)));
    assert_eq!(Color::from_hex_string("#FfAa00cc"), Some(Color::new(255, 170, 0, 204)));
    assert_eq!(Color::from_hex_string("#+f0000"), None);
    assert_eq!(Color::from_hex_string("#+f+f+f"), None);
    assert_eq!(Color::from_hex_string("#+00"), None);
    assert_eq!(Color::from_hex_string("#ff55"), None);
    assert_eq!(Color::from_hex_string("#gg5500"), None);
    assert_eq!(Color::from_hex_string(""), None);
    assert_eq!(Color::from_hex_string("#é12"), None);
    assert_eq!(Color::from_hex_string("#éé12"), None);
    assert_eq!(Color::from_hex_string("#a\u{e9}"), None);
    assert_eq!(Color::from_hex_string("#\u{e9}\u{e9}\u{e9}ab"), None);
}

#[test]
fn default_color_is_grey() {
    assert_eq!(Color::default(), Color::rgb(128, 128, 128));
}
