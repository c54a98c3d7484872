use gpui_ui_kit::control_sizes::{
    NumberInputSize, PotentiometerSize, ProgressColor, ProgressSize, ProgressVariant, SliderSize, SpinnerSize,
    VerticalSliderSize,
};
use gpui_ui_kit::alert::{Alert, AlertVariant, InlineAlert, Notification, NotificationVariant};
use gpui_ui_kit::badge::{
    Badge, BadgeDot, BadgeSize, BadgeThemeColor, BadgeVariant, LabelTextSize, Tag, TagSize, TagThemeColor,
    TagVariant,
};
use gpui_ui_kit::icon_button::{IconButton, IconButtonSize, IconButtonThemeColor, IconButtonVariant};
use gpui_ui_kit::search_bar::{SearchBar, SearchBarSize};
use gpui_ui_kit::size::ComponentSize;

#[test]
fn alert_icons_and_close() {
    assert_eq!(AlertVariant::Info.icon(), "i");
    assert_eq!(AlertVariant::Success.icon(), "v");
    assert_eq!(AlertVariant::Warning.icon(), "!");
    assert_eq!(AlertVariant::Error.icon(), "x");
    let a = Alert::new("a", "Saved").variant(AlertVariant::Success).title("Done");
    assert_eq!(a.shown_icon(), "v");
    assert_eq!(a.close_button(), (false, false));
    let a = a.icon("*").closeable(true);
    assert_eq!(a.shown_icon(), "*");
    assert_eq!(a.close_button(), (true, false));
    assert_eq!(a.on_close().close_button(), (true, true));
    assert_eq!(InlineAlert::new("m").variant(AlertVariant::Error).shown_icon(), "x");
    assert_eq!(InlineAlert::new("m").shown_icon(), "i");
}

#[test]
fn notification_controls() {
    let n = Notification::new("n", "Wallet connected");
    assert!(n.dismissible);
    assert_eq!(n.shown_icon(), "i");
    let c = n.controls();
    assert!(!c.action && c.dismiss && !c.dismiss_works);
    let n = Notification::new("n", "Oops")
        .variant(NotificationVariant::Error)
        .description("Try again")
        .action("Retry")
        .on_dismiss();
    assert_eq!(n.shown_icon(), "x");
    assert_eq!(n.description.as_deref(), Some("Try again"));
    let c = n.controls();
    assert!(c.action && c.dismiss && c.dismiss_works);
    let c = Notification::new("n", "t").icon("@").dismissible(false).on_dismiss().controls();
    assert!(!c.dismiss && !c.dismiss_works);
    assert_eq!(NotificationVariant::Warning.icon(), "!");
}

#[test]
fn badges() {
    let b = Badge::new("New").variant(BadgeVariant::Primary).size(BadgeSize::Lg).icon("*");
    assert_eq!(b.variant.colors(), (BadgeThemeColor::PrimaryBg, BadgeThemeColor::PrimaryText));
    assert_eq!(b.size.padding(), (12, 4));
    assert_eq!(b.size.text_size(), LabelTextSize::Sm);
    assert_eq!(b.corner_radius(), Some(3));
    assert_eq!(b.rounded(true).corner_radius(), None);
    assert_eq!(BadgeVariant::Default.colors(), (BadgeThemeColor::Surface, BadgeThemeColor::TextSecondary));
    assert_eq!(BadgeSize::Sm.text_size(), LabelTextSize::Xs);
    assert_eq!(BadgeSize::from(ComponentSize::Xs), BadgeSize::Sm);
    assert_eq!(BadgeSize::from(ComponentSize::Xl), BadgeSize::Lg);
    let d = BadgeDot::new().variant(BadgeVariant::Error).size(10);
    assert_eq!(d.color(), BadgeThemeColor::ErrorBg);
    assert_eq!(d.size, 10);
    assert_eq!(BadgeDot::default().size, 8);
}

#[test]
fn tags() {
    let t = Tag::new("flac", "FLAC");
    assert_eq!(t.remove_button(), (false, false));
    assert_eq!(t.text_size(), LabelTextSize::Xs);
    let t = t.removable(true).size(TagSize::Lg).icon("music");
    assert_eq!(t.remove_button(), (true, false));
    assert_eq!(t.on_remove().remove_button(), (true, true));
    let c = TagVariant::Outlined.colors();
    assert_eq!(c.bg, None);
    assert_eq!(c.border, Some(TagThemeColor::OutlinedBorder));
    assert_eq!(c.text, TagThemeColor::DefaultText);
    let c = TagVariant::Success.colors();
    assert_eq!(c.bg, Some(TagThemeColor::SuccessBg));
    assert_eq!(c.border, None);
    assert!(Tag::new("x", "X").on_click().has_on_click);
    assert_eq!(Tag::new("x", "X").variant(TagVariant::Error).variant, TagVariant::Error);
}

#[test]
fn icon_buttons() {
    let b = IconButton::new("b", "x");
    assert_eq!(b.icon.as_deref(), Some("x"));
    assert_eq!(b.size.size(), 24);
    let c = b.compute_colors();
    assert_eq!(c.bg, IconButtonThemeColor::GhostBg);
    assert_eq!(c.border, None);
    let sel = IconButton::new("b", "x").variant(IconButtonVariant::Outline).selected(true);
    let c = sel.compute_colors();
    assert_eq!(c.bg, IconButtonThemeColor::SelectedBg);
    assert_eq!(c.border, Some(IconButtonThemeColor::Accent));
    let filled = IconButton::new("b", "x").variant(IconButtonVariant::Filled).selected(true);
    assert_eq!(filled.compute_colors().bg, IconButtonThemeColor::Accent);
    assert_eq!(IconButtonSize::Custom(40).size(), 40);
    assert_eq!(IconButtonSize::from(ComponentSize::Xl).size(), 48);
    assert!(!IconButton::new("b", "x").clickable());
    assert!(IconButton::new("b", "x").on_click().clickable());
    assert!(!IconButton::new("b", "x").on_click().disabled(true).clickable());
    assert!(IconButton::with_child("b").rounded_full().icon.is_none());
}

#[test]
fn search_bar() {
    let s = SearchBar::new("s");
    assert_eq!(s.shown_text(), "Search...");
    assert!(!s.clear_button_shown());
    assert_eq!(s.clear_click(), None);
    let s = SearchBar::new("s").value("abba").placeholder("Find").on_change();
    assert_eq!(s.shown_text(), "abba");
    assert!(s.clear_button_shown());
    assert_eq!(s.clear_click().as_deref(), Some(""));
    let s = s.show_clear(false);
    assert!(!s.clear_button_shown());
    assert_eq!(s.clear_click(), None);
    assert_eq!(SearchBarSize::Sm.height(), 28);
    assert!(SearchBarSize::Sm.small_text());
    assert!(!SearchBarSize::Lg.small_text());
    assert_eq!(SearchBar::new("s").size(SearchBarSize::Lg).show_icon(false).size.height(), 40);
}

#[test]
fn control_size_tables() {
    assert_eq!(PotentiometerSize::from(ComponentSize::Xl), PotentiometerSize::Lg);
    assert_eq!(PotentiometerSize::Md.knob_size(), 60);
    assert_eq!(PotentiometerSize::Xs.indicator_radius(), 10);
    assert_eq!(PotentiometerSize::Lg.min_width(), 120);
    assert_eq!(VerticalSliderSize::from(ComponentSize::Xs), VerticalSliderSize::Sm);
    assert_eq!(VerticalSliderSize::default().track_height(), 120);
    assert_eq!(VerticalSliderSize::Lg.track_width(), 24);
    assert_eq!(SliderSize::Sm.thumb_size(), 14);
    assert_eq!(SliderSize::from(ComponentSize::Lg).track_height(), 8);
    assert_eq!(ProgressSize::from(ComponentSize::Xs).height(), 2);
    assert_eq!(ProgressVariant::default().color(), ProgressColor::Accent);
    assert_eq!(ProgressVariant::Error.color(), ProgressColor::Error);
    assert_eq!(SpinnerSize::from(ComponentSize::Xl).size(), 48);
    assert_eq!(SpinnerSize::Sm.dot_size(), 6);
}

#[test]
fn number_input_sizes() {
    assert_eq!(NumberInputSize::default().height(), 32);
    assert_eq!(NumberInputSize::from(ComponentSize::Xl), NumberInputSize::Lg);
    assert_eq!(NumberInputSize::Lg.button_width(), 36);
    assert_eq!(NumberInputSize::Sm.font_size(), 11);
    assert_eq!(NumberInputSize::Xs.padding(), 2);
}
