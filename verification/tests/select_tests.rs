use gpui_ui_kit::select::{select_key, OptionLook, Select, SelectKey, SelectOption, SelectSize};
use gpui_ui_kit::size::ComponentSize;

fn fruits() -> Vec<SelectOption> {
    vec![
        SelectOption::new("apple", "Apple"),
        SelectOption::new("banana", "Banana").disabled(true),
        SelectOption::new("cherry", "Cherry"),
    ]
}

#[test]
fn display_text_prefers_label_then_placeholder() {
    let s = Select::new("s").options(fruits());
    assert_eq!(s.display_text(), "Select...");
    let s = s.placeholder("Pick one");
    assert_eq!(s.display_text(), "Pick one");
    let s = s.selected("cherry");
    assert_eq!(s.selected_label().as_deref(), Some("Cherry"));
    assert_eq!(s.display_text(), "Cherry");
    let unknown = Select::new("s").options(fruits()).selected("kiwi");
    assert_eq!(unknown.selected_label(), None);
    assert_eq!(unknown.display_text(), "Select...");
}

#[test]
fn select_keys() {
    assert_eq!(select_key("space"), SelectKey::Space);
    assert_eq!(select_key(" "), SelectKey::Space);
    assert_eq!(select_key("escape"), SelectKey::Escape);
    assert_eq!(select_key("enter"), SelectKey::Enter);
    assert_eq!(select_key("down"), SelectKey::Down);
    assert_eq!(select_key("up"), SelectKey::Up);
    assert_eq!(select_key("a"), SelectKey::Other);
}

#[test]
fn space_toggles_the_list() {
    let closed = Select::new("s").options(fruits());
    let a = closed.key_action("space");
    assert!(a.handled);
    assert_eq!(a.toggle, Some(true));
    let open = Select::new("s").options(fruits()).is_open(true);
    assert_eq!(open.key_action(" ").toggle, Some(false));
}

#[test]
fn keys_on_a_closed_list_are_not_handled() {
    let closed = Select::new("s").options(fruits());
    for key in ["escape", "enter", "down", "up", "x"] {
        let a = closed.key_action(key);
        assert!(!a.handled);
        assert_eq!(a.toggle, None);
        assert_eq!(a.change, None);
        assert_eq!(a.highlight, None);
    }
}

#[test]
fn arrows_wrap_around() {
    let open = Select::new("s").options(fruits()).is_open(true);
    assert_eq!(open.key_action("down").highlight, Some(Some(0)));
    assert_eq!(open.key_action("up").highlight, Some(Some(2)));
    let at_end = Select::new("s").options(fruits()).is_open(true).highlighted_index(Some(2));
    assert_eq!(at_end.key_action("down").highlight, Some(Some(0)));
    assert_eq!(at_end.key_action("up").highlight, Some(Some(1)));
    let at_start = Select::new("s").options(fruits()).is_open(true).highlighted_index(Some(0));
    assert_eq!(at_start.key_action("up").highlight, Some(Some(2)));
}

#[test]
fn enter_chooses_enabled_highlight_and_closes() {
    let s = Select::new("s").options(fruits()).is_open(true).highlighted_index(Some(2));
    let a = s.key_action("enter");
    assert!(a.handled);
    assert_eq!(a.change.as_deref(), Some("cherry"));
    assert_eq!(a.toggle, Some(false));
    let on_disabled = Select::new("s").options(fruits()).is_open(true).highlighted_index(Some(1));
    let a = on_disabled.key_action("enter");
    assert!(a.handled);
    assert_eq!(a.change, None);
    assert_eq!(a.toggle, None);
    let esc = s.key_action("escape");
    assert!(esc.handled);
    assert_eq!(esc.toggle, Some(false));
}

#[test]
fn click_flips_the_list() {
    let s = Select::new("s");
    assert_eq!(s.click_toggle(), Some(true));
    assert_eq!(s.is_open(true).click_toggle(), Some(false));
    assert_eq!(Select::new("s").disabled(true).click_toggle(), None);
}

#[test]
fn disabled_select_ignores_keys() {
    let s = Select::new("s").options(fruits()).disabled(true).is_open(true);
    for key in ["space", "escape", "enter", "down", "up"] {
        let a = s.key_action(key);
        assert!(!a.handled);
        assert_eq!(a.toggle, None);
        assert_eq!(a.highlight, None);
    }
}

#[test]
fn option_clicks_and_looks() {
    let s = Select::new("s").options(fruits()).selected("apple").highlighted_index(Some(2));
    assert_eq!(s.option_click(0).as_deref(), Some("apple"));
    assert_eq!(s.option_click(1), None);
    assert_eq!(s.option_look(0), OptionLook::Selected);
    assert_eq!(s.option_look(1), OptionLook::Disabled);
    assert_eq!(s.option_look(2), OptionLook::Highlighted);
    let plain = Select::new("s").options(fruits());
    assert_eq!(plain.option_look(0), OptionLook::Plain);
}

#[test]
fn select_size_from_component_size() {
    assert_eq!(SelectSize::from(ComponentSize::Xs), SelectSize::Xs);
    assert_eq!(SelectSize::from(ComponentSize::Xl), SelectSize::Lg);
    assert_eq!(SelectSize::default(), SelectSize::Md);
}

#[test]
fn down_then_up_returns() {
    for i in 0..3usize {
        let s = Select::new("s").options(fruits()).is_open(true).highlighted_index(Some(i));
        let down = s.key_action("down").highlight.unwrap().unwrap();
        let back = Select::new("s").options(fruits()).is_open(true).highlighted_index(Some(down));
        assert_eq!(back.key_action("up").highlight, Some(Some(i)));
    }
}
