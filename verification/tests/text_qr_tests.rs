use gpui_ui_kit::qr::{encode_qr, pan_cycle_millis, QrCode, QUIET_ZONE};
use gpui_ui_kit::text::{chars_of, decimal_string, str_eq, string_from_chars};

#[test]
fn decimal_notation() {
    assert_eq!(decimal_string(0), "0");
    assert_eq!(decimal_string(7), "7");
    assert_eq!(decimal_string(10), "10");
    assert_eq!(decimal_string(1234567890), "1234567890");
    assert_eq!(decimal_string(u64::MAX), u64::MAX.to_string());
}

#[test]
fn char_round_trip_and_equality() {
    let v = chars_of("h\u{e9}llo");
    assert_eq!(v.len(), 5);
    assert_eq!(string_from_chars(&v), "h\u{e9}llo");
    assert!(str_eq("abc", "abc"));
    assert!(!str_eq("abc", "abd"));
    assert!(!str_eq("abc", "ab"));
    assert!(str_eq("", ""));
}

#[test]
fn qr_grid_is_square_and_versioned() {
    let g = encode_qr(b"https://example.com").expect("short data encodes");
    assert_eq!(g.dark.len(), g.modules * g.modules);
    assert!(g.modules >= 21 && g.modules <= 177);
    assert_eq!((g.modules - 17) % 4, 0);
    assert_eq!(g.total_modules(), g.modules + 2 * QUIET_ZONE);
}

#[test]
fn qr_grid_matches_the_encoder() {
    let data = b"hello";
    let g = encode_qr(data).unwrap();
    let code = qrcode::QrCode::new(data).unwrap();
    assert_eq!(g.modules, code.width());
    let dark: Vec<bool> = code.to_colors().iter().map(|c| *c == qrcode::Color::Dark).collect();
    assert_eq!(g.dark, dark);
    assert!(g.dark.iter().any(|d| *d));
    assert!(g.dark.iter().any(|d| !*d));
}

#[test]
fn dark_cells_are_offset_by_the_quiet_zone() {
    let g = encode_qr(b"42").unwrap();
    let cells = g.dark_cells();
    let count = g.dark.iter().filter(|d| **d).count();
    assert_eq!(cells.len(), count);
    // The top-left finder pattern starts dark at the first module.
    assert_eq!(cells[0], (QUIET_ZONE, QUIET_ZONE));
    for (x, y) in &cells {
        assert!(*x >= QUIET_ZONE && *x < g.modules + QUIET_ZONE);
        assert!(*y >= QUIET_ZONE && *y < g.modules + QUIET_ZONE);
        let (cx, cy) = (x - QUIET_ZONE, y - QUIET_ZONE);
        assert!(g.dark[cy * g.modules + cx]);
    }
    let mut sorted = cells.clone();
    sorted.sort_by_key(|(x, y)| (*y, *x));
    assert_eq!(sorted, cells);
}

#[test]
fn oversized_data_is_refused() {
    let big = vec![b'x'; 5000];
    assert!(encode_qr(&big).is_none());
}

#[test]
fn qr_code_uses_utf8_bytes() {
    let q = QrCode::new("caf\u{e9}");
    assert_eq!(q.data, "caf\u{e9}");
    let g = q.grid().unwrap();
    let direct = encode_qr("caf\u{e9}".as_bytes()).unwrap();
    assert_eq!(g.modules, direct.modules);
    assert_eq!(g.dark, direct.dark);
}

#[test]
fn pan_cycle_lengths() {
    assert_eq!(pan_cycle_millis(21, 30), 2000);
    assert_eq!(pan_cycle_millis(21, 18), 2000);
    assert_eq!(pan_cycle_millis(25, 10), 6000);
    assert_eq!(pan_cycle_millis(177, 20), 157 * 400);
}
