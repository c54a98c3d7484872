use gpui_ui_kit::menu::{menu_key, Menu, MenuBar, MenuBarItem, MenuItem, MenuKey, MenuKeyAction};

fn sample_items() -> Vec<MenuItem> {
    vec![
        MenuItem::new("open", "Open"),
        MenuItem::separator(),
        MenuItem::new("save", "Save").disabled(true),
        MenuItem::new("close", "Close"),
        MenuItem::checkbox("wrap", "Word wrap", true),
    ]
}

fn focus_of(a: MenuKeyAction) -> Option<usize> {
    match a {
        MenuKeyAction::FocusChange(f) => f,
        _ => panic!("expected a focus change"),
    }
}

#[test]
fn menu_item_builders() {
    let item = MenuItem::new("cut", "Cut").with_shortcut("Cmd+X").with_icon("scissors");
    assert_eq!(item.id(), "cut");
    assert_eq!(item.label, "Cut");
    assert_eq!(item.shortcut.as_deref(), Some("Cmd+X"));
    assert_eq!(item.icon.as_deref(), Some("scissors"));
    assert!(!item.disabled);
    assert!(!item.is_separator());
    let danger = MenuItem::new("del", "Delete").danger();
    assert!(danger.is_danger());
    let sep = MenuItem::separator();
    assert!(sep.is_separator());
    let cb = MenuItem::checkbox("wrap", "Wrap", true);
    assert!(cb.is_checkbox && cb.checked);
    let parent = MenuItem::new("more", "More").with_children(vec![MenuItem::new("a", "A")]);
    assert_eq!(parent.children.len(), 1);
}

#[test]
fn selectable_indices_skip_separators_and_disabled() {
    let menu = Menu::new("m", sample_items());
    assert_eq!(menu.selectable_indices(), vec![0, 3, 4]);
    assert_eq!(menu.first_selectable_index(), Some(0));
    assert_eq!(menu.last_selectable_index(), Some(4));
}

#[test]
fn down_and_up_wrap_around() {
    let menu = Menu::new("m", sample_items());
    assert_eq!(menu.next_selectable_index(None), Some(0));
    assert_eq!(menu.next_selectable_index(Some(0)), Some(3));
    assert_eq!(menu.next_selectable_index(Some(3)), Some(4));
    assert_eq!(menu.next_selectable_index(Some(4)), Some(0));
    assert_eq!(menu.prev_selectable_index(None), Some(4));
    assert_eq!(menu.prev_selectable_index(Some(3)), Some(0));
    assert_eq!(menu.prev_selectable_index(Some(0)), Some(4));
}

#[test]
fn down_then_up_returns_to_the_same_item() {
    let menu = Menu::new("m", sample_items());
    for c in [0usize, 3, 4] {
        let n = menu.next_selectable_index(Some(c)).unwrap();
        assert_eq!(menu.prev_selectable_index(Some(n)), Some(c));
        let p = menu.prev_selectable_index(Some(c)).unwrap();
        assert_eq!(menu.next_selectable_index(Some(p)), Some(c));
    }
}

#[test]
fn menu_without_selectable_items_has_no_focus() {
    let menu = Menu::new("m", vec![MenuItem::separator(), MenuItem::new("x", "X").disabled(true)]);
    assert_eq!(menu.next_selectable_index(None), None);
    assert_eq!(menu.prev_selectable_index(Some(1)), None);
    assert_eq!(menu.first_selectable_index(), None);
}

#[test]
fn menu_keys() {
    assert_eq!(menu_key("escape"), MenuKey::Escape);
    assert_eq!(menu_key("enter"), MenuKey::Choose);
    assert_eq!(menu_key(" "), MenuKey::Choose);
    assert_eq!(menu_key("arrowdown"), MenuKey::Down);
    assert_eq!(menu_key("down"), MenuKey::Down);
    assert_eq!(menu_key("arrowup"), MenuKey::Up);
    assert_eq!(menu_key("home"), MenuKey::Home);
    assert_eq!(menu_key("end"), MenuKey::End);
    assert_eq!(menu_key("tab"), MenuKey::Other);
}

#[test]
fn key_actions() {
    let menu = Menu::new("m", sample_items()).focused_index(3);
    assert!(matches!(menu.key_action("escape"), MenuKeyAction::Close));
    match menu.key_action("enter") {
        MenuKeyAction::Select(id) => assert_eq!(id, "close"),
        _ => panic!("enter should choose the focused item"),
    }
    assert_eq!(focus_of(menu.key_action("down")), Some(4));
    assert_eq!(focus_of(menu.key_action("up")), Some(0));
    assert_eq!(focus_of(menu.key_action("home")), Some(0));
    assert_eq!(focus_of(menu.key_action("end")), Some(4));
    assert!(matches!(menu.key_action("x"), MenuKeyAction::Nothing));
    let on_disabled = Menu::new("m", sample_items()).focused_index(2);
    assert!(matches!(on_disabled.key_action("enter"), MenuKeyAction::Nothing));
    let unfocused = Menu::new("m", sample_items());
    assert!(matches!(unfocused.key_action(" "), MenuKeyAction::Nothing));
}

#[test]
fn menu_bar_toggles() {
    let bar = MenuBar::new(vec![
        MenuBarItem::new("file", "File").with_items(vec![MenuItem::new("new", "New")]),
        MenuBarItem::new("edit", "Edit"),
    ]);
    assert_eq!(bar.items().len(), 2);
    assert_eq!(bar.items()[0].label(), "File");
    assert_eq!(bar.items()[0].items().len(), 1);
    assert_eq!(bar.get_active_menu(), None);
    assert!(!bar.is_open("file"));
    let opened = bar.toggle_target("file");
    assert_eq!(opened.as_deref(), Some("file"));
    let bar = bar.active_menu(opened);
    assert!(bar.is_open("file"));
    assert_eq!(bar.toggle_target("file"), None);
    assert_eq!(bar.toggle_target("edit").as_deref(), Some("edit"));
}

#[test]
fn item_clicks_and_check_marks() {
    let menu = Menu::new("m", sample_items());
    assert_eq!(menu.item_click(0).map(|s| s.as_str()), Some("open"));
    assert_eq!(menu.item_click(1), None);
    assert_eq!(menu.item_click(2), None);
    assert_eq!(menu.items[4].check_mark(), Some("\u{2713}"));
    assert_eq!(MenuItem::checkbox("w", "W", false).check_mark(), Some(" "));
    assert_eq!(menu.items[0].check_mark(), None);
}
