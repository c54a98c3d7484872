use gpui_ui_kit::checkbox::{CheckMark, Checkbox, CheckboxSize};
use gpui_ui_kit::size::ComponentSize;
use gpui_ui_kit::tabs::{TabItem, TabVariant, Tabs};

fn three_tabs() -> Vec<TabItem> {
    vec![
        TabItem::new("a", "Alpha").icon("star"),
        TabItem::new("b", "Beta").badge("3"),
        TabItem::new("c", "Gamma").closeable(true).disabled(true),
    ]
}

#[test]
fn tab_item_builders() {
    let tabs = three_tabs();
    assert_eq!(tabs[0].id(), "a");
    assert_eq!(tabs[0].icon.as_deref(), Some("star"));
    assert_eq!(tabs[1].badge.as_deref(), Some("3"));
    assert!(tabs[2].closeable && tabs[2].disabled);
    assert_eq!(TabVariant::default(), TabVariant::Underline);
}

#[test]
fn arrow_keys_step_without_wrapping() {
    let t = Tabs::new("t").tabs(three_tabs()).selected_index(1);
    assert_eq!(t.key_target("left"), Some(0));
    assert_eq!(t.key_target("right"), Some(2));
    assert_eq!(t.key_target("home"), Some(0));
    assert_eq!(t.key_target("end"), Some(2));
    assert_eq!(t.key_target("tab"), None);
    let first = Tabs::new("t").tabs(three_tabs());
    assert_eq!(first.key_target("left"), None);
    let last = Tabs::new("t").tabs(three_tabs()).selected_index(2).variant(TabVariant::Pills);
    assert_eq!(last.key_target("right"), None);
    assert_eq!(last.variant, TabVariant::Pills);
}

#[test]
fn right_then_left_returns() {
    let t = Tabs::new("t").tabs(three_tabs());
    let r = t.key_target("right").unwrap();
    let back = Tabs::new("t").tabs(three_tabs()).selected_index(r).key_target("left");
    assert_eq!(back, Some(0));
}

#[test]
fn empty_strip_has_no_end() {
    let t = Tabs::new("t");
    assert_eq!(t.key_target("end"), None);
    assert_eq!(t.key_target("right"), None);
}

#[test]
fn checkbox_mark_and_clicks() {
    let c = Checkbox::new("c");
    assert_eq!(c.mark(), CheckMark::Empty);
    assert_eq!(c.click(), Some(true));
    let c = Checkbox::new("c").checked(true).label("Remember me");
    assert_eq!(c.label.as_deref(), Some("Remember me"));
    assert_eq!(c.mark(), CheckMark::Tick);
    assert_eq!(c.click(), Some(false));
    let c = Checkbox::new("c").checked(true).indeterminate(true);
    assert_eq!(c.mark(), CheckMark::Dash);
    let d = Checkbox::new("c").disabled(true);
    assert_eq!(d.click(), None);
    assert_eq!(d.key_press("space"), None);
}

#[test]
fn checkbox_keys() {
    let c = Checkbox::new("c").size(CheckboxSize::Lg);
    assert_eq!(c.key_press("space"), Some(true));
    assert_eq!(c.key_press(" "), Some(true));
    assert_eq!(c.key_press("enter"), Some(true));
    assert_eq!(c.key_press("a"), None);
}

#[test]
fn checkbox_size_from_component_size() {
    assert_eq!(CheckboxSize::from(ComponentSize::Xs), CheckboxSize::Sm);
    assert_eq!(CheckboxSize::from(ComponentSize::Sm), CheckboxSize::Sm);
    assert_eq!(CheckboxSize::from(ComponentSize::Md), CheckboxSize::Md);
    assert_eq!(CheckboxSize::from(ComponentSize::Xl), CheckboxSize::Lg);
    assert_eq!(CheckboxSize::default(), CheckboxSize::Md);
}

#[test]
fn tab_clicks_and_closing() {
    let t = Tabs::new("t").tabs(three_tabs());
    assert_eq!(t.tab_click(1), Some(1));
    assert_eq!(t.tab_click(2), None);
    assert_eq!(t.close_click(0), None);
    assert_eq!(t.close_click(2).map(|s| s.as_str()), Some("c"));
    let d = Tabs::default();
    assert_eq!(d.id, "tabs");
    assert!(d.tabs.is_empty());
}

#[test]
fn checkbox_box_sizes() {
    assert_eq!(CheckboxSize::Sm.size(), 14);
    assert_eq!(CheckboxSize::Md.size(), 18);
    assert_eq!(CheckboxSize::Lg.size(), 22);
}
