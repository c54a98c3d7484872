use gpui_ui_kit::avatar::{Avatar, AvatarGroup, AvatarShape, AvatarSize, AvatarStatus, StatusColor};
use gpui_ui_kit::command_palette::{text_contains, CommandItem, CommandPalette, PaletteRowLook};
use gpui_ui_kit::shortcut::{KeyboardShortcutLabel, KeyboardShortcutSize};
use gpui_ui_kit::size::ComponentSize;

fn commands() -> Vec<CommandItem> {
    vec![
        CommandItem::new("open", "Open File").category("File").shortcut("Cmd+O"),
        CommandItem::new("save", "Save File").category("File"),
        CommandItem::new("find", "Find in Files").category("Search").icon("search"),
        CommandItem::new("theme", "Toggle Theme"),
        CommandItem::new("quit", "Quit").disabled(true),
    ]
}

fn rows(p: &CommandPalette) -> Vec<(usize, Option<String>)> {
    p.visible_rows().into_iter().map(|r| (r.index, r.header)).collect()
}

#[test]
fn palette_defaults() {
    let p = CommandPalette::new("p", commands());
    assert_eq!(p.placeholder, "Type a command...");
    assert_eq!(p.query, "");
    assert_eq!(p.selected_index, 0);
    assert_eq!(p.max_visible, 10);
}

#[test]
fn empty_query_lists_everything_with_headings() {
    let p = CommandPalette::new("p", commands());
    assert_eq!(
        rows(&p),
        vec![
            (0, Some("File".to_string())),
            (1, None),
            (2, Some("Search".to_string())),
            (3, None),
            (4, None),
        ]
    );
}

#[test]
fn query_filters_case_insensitively() {
    let p = CommandPalette::new("p", commands()).query("FILE");
    assert_eq!(
        rows(&p),
        vec![(0, Some("File".to_string())), (1, None), (2, Some("Search".to_string()))]
    );
    let none = CommandPalette::new("p", commands()).query("zzz");
    assert!(rows(&none).is_empty());
}

#[test]
fn empty_query_lists_the_first_commands_in_order() {
    let p = CommandPalette::new("p", commands()).max_visible(3);
    let listed: Vec<usize> = p.visible_rows().into_iter().map(|r| r.index).collect();
    assert_eq!(listed, vec![0, 1, 2]);
    let none = CommandPalette::new("p", commands()).max_visible(0);
    assert!(none.visible_rows().is_empty());
}

#[test]
fn palette_shows_at_most_max_visible() {
    let p = CommandPalette::new("p", commands()).max_visible(2).selected_index(1).placeholder("Run");
    assert_eq!(rows(&p), vec![(0, Some("File".to_string())), (1, None)]);
    assert_eq!(p.placeholder, "Run");
}

#[test]
fn substring_search() {
    let hay: Vec<char> = "toggle theme".chars().collect();
    assert!(text_contains(&hay, &"theme".chars().collect()));
    assert!(text_contains(&hay, &Vec::new()));
    assert!(!text_contains(&hay, &"themes".chars().collect()));
}

#[test]
fn avatar_initials() {
    assert_eq!(Avatar::new().name("Alice Bob Carol").get_initials(), "AB");
    assert_eq!(Avatar::new().name("  jane   doe ").get_initials(), "JD");
    assert_eq!(Avatar::new().name("madonna").get_initials(), "M");
    assert_eq!(Avatar::new().name("john doe smith").get_initials(), "JD");
    assert_eq!(Avatar::new().name("\u{e9}mile zola").get_initials(), "\u{c9}Z");
    assert_eq!(Avatar::new().name("").get_initials(), "");
    assert_eq!(Avatar::new().get_initials(), "?");
}

#[test]
fn avatar_background_index() {
    assert_eq!(Avatar::new().name("Alice Bob").bg_color_index(), Some(785 % 8));
    assert_eq!(Avatar::new().name("A").bg_color_index(), Some(65 % 8));
    assert_eq!(Avatar::new().bg_color_index(), None);
}

#[test]
fn avatar_builders() {
    let a = Avatar::new()
        .name("Zed")
        .src("z.png")
        .size(AvatarSize::Lg)
        .shape(AvatarShape::Square)
        .status(AvatarStatus::Online);
    assert_eq!(a.name.as_deref(), Some("Zed"));
    assert_eq!(a.src.as_deref(), Some("z.png"));
    assert_eq!(a.size, AvatarSize::Lg);
    assert_eq!(a.shape, AvatarShape::Square);
    assert_eq!(a.status, Some(AvatarStatus::Online));
    assert_eq!(AvatarSize::from(ComponentSize::Xl), AvatarSize::Xl);
}

#[test]
fn avatar_group_counts() {
    let many: Vec<Avatar> = (0..6).map(|_| Avatar::new()).collect();
    let g = AvatarGroup::new().avatars(many).max_display(4);
    assert_eq!(g.display_count(), 4);
    assert_eq!(g.remaining(), 2);
    assert_eq!(g.display_count() + g.remaining(), 6);
    let few = AvatarGroup::new().avatars(vec![Avatar::new(), Avatar::new()]).size(AvatarSize::Sm);
    assert_eq!(few.display_count(), 2);
    assert_eq!(few.remaining(), 0);
}

#[test]
fn shortcut_key_caps() {
    let l = KeyboardShortcutLabel::new("Ctrl + Shift+P");
    assert_eq!(l.key_caps(), vec!["Ctrl", "Shift", "P"]);
    let l = KeyboardShortcutLabel::new("Cmd-K").separator("-").size(KeyboardShortcutSize::Sm);
    assert_eq!(l.key_caps(), vec!["Cmd", "K"]);
    assert_eq!(l.size, KeyboardShortcutSize::Sm);
    let l = KeyboardShortcutLabel::new("A++");
    assert_eq!(l.key_caps(), vec!["A", "", ""]);
    let l = KeyboardShortcutLabel::new("");
    assert_eq!(l.key_caps(), vec![""]);
}

#[test]
fn palette_input_and_row_looks() {
    let p = CommandPalette::new("p", commands());
    assert_eq!(p.input_text(), "Type a command...");
    assert_eq!(p.row_look(0), PaletteRowLook::Selected);
    assert_eq!(p.row_look(4), PaletteRowLook::Disabled);
    assert_eq!(p.row_look(1), PaletteRowLook::Plain);
    let q = CommandPalette::new("p", commands()).query("sav").selected_index(4);
    assert_eq!(q.input_text(), "sav");
    assert_eq!(q.row_look(4), PaletteRowLook::Selected);
}

#[test]
fn avatar_sizes_and_status_colors() {
    assert_eq!(AvatarSize::Xs.size(), 20);
    assert_eq!(AvatarSize::Xxl.size(), 64);
    assert_eq!(AvatarSize::Lg.status_dot_size(), 8);
    assert_eq!(AvatarSize::Xl.status_dot_size(), 10);
    assert_eq!(AvatarStatus::Busy.color(), StatusColor::Error);
    assert_eq!(AvatarStatus::Offline.color(), StatusColor::TextMuted);
}
