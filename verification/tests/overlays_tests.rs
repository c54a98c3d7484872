use gpui_ui_kit::overlays::{
    BorderEdge, LoadingOverlay, Popover, PopoverAlign, PopoverPlacement, PopoverSide, SettingsEntry,
    SettingsForm, SettingsRow, StatusBarPosition,
};

#[test]
fn popover_anchors() {
    assert_eq!(PopoverPlacement::default().anchor(), (PopoverSide::Below, PopoverAlign::LeftEdge));
    assert_eq!(PopoverPlacement::TopEnd.anchor(), (PopoverSide::Above, PopoverAlign::RightEdge));
    assert_eq!(PopoverPlacement::Top.anchor(), PopoverPlacement::TopStart.anchor());
    assert_eq!(PopoverPlacement::Left.anchor(), (PopoverSide::LeftOf, PopoverAlign::TopEdge));
    assert_eq!(PopoverPlacement::BottomEnd.anchor(), (PopoverSide::Below, PopoverAlign::RightEdge));
}

#[test]
fn popover_outside_clicks() {
    let p = Popover::new("p");
    assert!(!p.outside_click_closes());
    let p = p.on_close().placement(PopoverPlacement::Right);
    assert!(p.outside_click_closes());
    assert!(!p.show_backdrop(false).outside_click_closes());
}

#[test]
fn loading_overlay_dismissal() {
    let o = LoadingOverlay::new("o").message("Loading").subtitle("Please wait");
    assert_eq!(o.message.as_deref(), Some("Loading"));
    assert!(!o.click_dismisses());
    assert!(!LoadingOverlay::new("o").on_dismiss().click_dismisses());
    assert!(LoadingOverlay::new("o").dismissible(true).on_dismiss().click_dismisses());
}

#[test]
fn status_bar_border() {
    assert_eq!(StatusBarPosition::default().border_edge(), BorderEdge::Top);
    assert_eq!(StatusBarPosition::Top.border_edge(), BorderEdge::Bottom);
}

#[test]
fn settings_form_spacers() {
    let f = SettingsForm::new("f")
        .section("Playback")
        .row(SettingsRow::new("Volume").description("Master output volume"))
        .section("Output")
        .row(SettingsRow::new("Device"));
    assert_eq!(f.entries.len(), 4);
    assert!(!f.spacer_before(0));
    assert!(!f.spacer_before(1));
    assert!(f.spacer_before(2));
    assert!(!f.spacer_before(3));
    match &f.entries[1] {
        SettingsEntry::Row(r) => {
            assert_eq!(r.label, "Volume");
            assert_eq!(r.description.as_deref(), Some("Master output volume"));
        }
        SettingsEntry::Section(_) => panic!("expected a row"),
    }
}
