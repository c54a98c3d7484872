use gpui_ui_kit::param_label::{format_label, mark_shortcut};

#[test]
fn shortcut_inside_the_label() {
    assert_eq!(format_label(Some("Gain"), Some('g')).as_deref(), Some("[G]ain"));
    assert_eq!(format_label(Some("Frequency"), Some('Q')).as_deref(), Some("Fre[Q]uency"));
    assert_eq!(format_label(Some("mix level"), Some('l')).as_deref(), Some("mix [L]evel"));
}

#[test]
fn shortcut_before_the_label() {
    assert_eq!(format_label(Some("Mix"), Some('z')).as_deref(), Some("[Z] Mix"));
    assert_eq!(format_label(None, Some('a')).as_deref(), Some("[A] "));
    assert_eq!(format_label(Some("Pan"), Some('1')).as_deref(), Some("[1] Pan"));
}

#[test]
fn no_shortcut_keeps_the_label() {
    assert_eq!(format_label(Some("Gain"), None).as_deref(), Some("Gain"));
    assert_eq!(format_label(None, None).as_deref(), Some(""));
}

#[test]
fn byte_positions_with_wide_characters() {
    // The match is at byte 2 of "\u{e9}cho"; the bracketed character is the
    // one at character position 2.
    assert_eq!(format_label(Some("\u{c9}cho"), Some('c')).as_deref(), Some("\u{c9}[H]ho"));
    // Here position 2 is past the last character: no text can be built.
    assert_eq!(format_label(Some("\u{e9}a"), Some('a')), None);
}

#[test]
fn marking_with_a_given_lowercase_form() {
    assert_eq!(mark_shortcut("Attack", "attack", 'k'), "Attac[K]");
    assert_eq!(mark_shortcut("Attack", "attack", 'x'), "[X] Attack");
}
