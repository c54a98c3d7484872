use gpui_ui_kit::accordion::{
    contains_id, indicator, Accordion, AccordionItem, AccordionMode, AccordionOrientation,
};
use gpui_ui_kit::breadcrumbs::{BreadcrumbItem, BreadcrumbSeparator, Breadcrumbs, CrumbLayout};
use gpui_ui_kit::button::{
    compute_colors, Button, ButtonColors, ButtonSize, ButtonTextSize, ButtonThemeColor, ButtonVariant,
};
use gpui_ui_kit::button_set::{ButtonSet, ButtonSetOption, ButtonSetSize, SegmentCorners};
use gpui_ui_kit::dialog::{ConfirmBorder, ConfirmDialog, ConfirmDialogVariant, Dialog, DialogSize};
use gpui_ui_kit::size::ComponentSize;
use gpui_ui_kit::step_indicator::{
    Connector, StepIndicator, StepIndicatorSize, StepItem, StepItemStatus, StepOrientation,
};

fn sections() -> Accordion {
    Accordion::new()
        .item(AccordionItem::new("intro", "Intro"))
        .item(AccordionItem::new("setup", "Setup").disabled(true))
        .item(AccordionItem::new("faq", ""))
        .expanded(vec!["intro".to_string()])
}

#[test]
fn accordion_defaults() {
    let a = Accordion::default();
    assert!(a.items.is_empty() && a.expanded.is_empty());
    assert_eq!(a.mode, AccordionMode::Single);
    assert_eq!(a.orientation, AccordionOrientation::Vertical);
    let a = a.mode(AccordionMode::Multiple).orientation(AccordionOrientation::Side);
    assert_eq!(a.mode, AccordionMode::Multiple);
    assert_eq!(a.orientation, AccordionOrientation::Side);
    assert_eq!(AccordionItem::new("x", "X").id(), "x");
}

#[test]
fn accordion_open_state_and_clicks() {
    let a = sections();
    assert!(a.is_expanded(0));
    assert!(!a.is_expanded(1));
    assert_eq!(a.header_click(0), Some(false));
    assert_eq!(a.header_click(1), None);
    assert_eq!(a.header_click(2), Some(true));
    assert!(contains_id(&a.expanded, "intro"));
    assert!(!contains_id(&a.expanded, "faq"));
}

#[test]
fn accordion_click_then_apply_toggles() {
    let a = sections();
    let asked = a.header_click(2).unwrap();
    assert!(asked);
    let opened = sections().expanded(vec!["faq".to_string()]);
    assert!(opened.is_expanded(2));
    assert!(!opened.is_expanded(0));
    assert_eq!(opened.header_click(2), Some(false));
    assert_eq!(opened.header_click(0), Some(true));
}

#[test]
fn accordion_single_mode_opens_only_the_first_listed() {
    let both = sections().expanded(vec!["intro".to_string(), "faq".to_string()]);
    assert_eq!(both.mode, AccordionMode::Single);
    assert!(both.is_expanded(0));
    assert!(!both.is_expanded(2));
    let later = sections().expanded(vec!["faq".to_string(), "intro".to_string()]);
    assert!(!later.is_expanded(0));
    assert!(later.is_expanded(2));
    assert!(!sections().expanded(vec![]).is_expanded(0));
}

#[test]
fn accordion_multiple_mode_opens_every_listed() {
    let both = sections()
        .mode(AccordionMode::Multiple)
        .expanded(vec!["intro".to_string(), "faq".to_string()]);
    assert!(both.is_expanded(0));
    assert!(!both.is_expanded(1));
    assert!(both.is_expanded(2));
    assert_eq!(both.header_click(2), Some(false));
    assert_eq!(both.header_indicator(2), "\u{25bc}");
}

#[test]
fn accordion_indicators() {
    let a = sections();
    assert_eq!(a.header_indicator(0), "\u{25bc}");
    assert_eq!(a.header_indicator(2), "\u{25b6}");
    let h = sections().orientation(AccordionOrientation::Horizontal);
    assert_eq!(h.header_indicator(2), "\u{25b2}");
    assert_eq!(indicator(AccordionOrientation::Side, true), "\u{25bc}");
}

#[test]
fn accordion_side_labels() {
    let a = sections().orientation(AccordionOrientation::Side);
    assert_eq!(a.side_label(0), vec!["I", "n", "t", "r", "o"]);
    assert_eq!(a.side_label(1), vec!["S"]);
    assert_eq!(a.side_label(2), vec!["?"]);
}

#[test]
fn button_colors() {
    assert_eq!(
        compute_colors(ButtonVariant::Primary, false),
        ButtonColors {
            bg: ButtonThemeColor::Accent,
            bg_hover: ButtonThemeColor::AccentHover,
            text: ButtonThemeColor::TextOnAccent,
            border: ButtonThemeColor::Accent,
        }
    );
    let outline = compute_colors(ButtonVariant::Outline, false);
    assert_eq!(outline.bg, ButtonThemeColor::Transparent);
    assert_eq!(outline.border, ButtonThemeColor::Border);
    assert_eq!(compute_colors(ButtonVariant::Ghosted, false).bg_hover, ButtonThemeColor::SurfaceHover);
    assert_eq!(compute_colors(ButtonVariant::Destructive, false).bg, ButtonThemeColor::Error);
    assert_eq!(compute_colors(ButtonVariant::Secondary, false).text, ButtonThemeColor::TextSecondary);
    for v in [
        ButtonVariant::Secondary,
        ButtonVariant::Destructive,
        ButtonVariant::Ghosted,
        ButtonVariant::Outline,
    ] {
        assert_eq!(compute_colors(v, true), compute_colors(ButtonVariant::Primary, false));
    }
}

#[test]
fn button_builders_and_sizes() {
    let b = Button::new("ok", "OK")
        .variant(ButtonVariant::Outline)
        .size(ButtonSize::Lg)
        .selected(true)
        .full_width(true)
        .icon_left("check")
        .icon_right("arrow");
    assert_eq!(b.label, "OK");
    assert_eq!(b.colors(), compute_colors(ButtonVariant::Primary, false));
    assert!(b.interactive());
    assert!(!b.disabled(true).interactive());
    assert_eq!(ButtonSize::Xs.padding(), (6, 2));
    assert_eq!(ButtonSize::Lg.padding(), (24, 12));
    assert_eq!(ButtonSize::Sm.text_size(), ButtonTextSize::Xs);
    assert_eq!(ButtonSize::Md.text_size(), ButtonTextSize::Sm);
    assert_eq!(ButtonSize::from(ComponentSize::Xl), ButtonSize::Lg);
    assert_eq!(ButtonVariant::default(), ButtonVariant::Primary);
}

#[test]
fn dialog_chrome() {
    let d = Dialog::new("d");
    assert_eq!(d.size, DialogSize::Md);
    let c = d.chrome();
    assert!(c.header && !c.close_button && !c.backdrop_closes);
    let d = Dialog::new("d").on_close();
    let c = d.chrome();
    assert!(c.close_button && c.backdrop_closes);
    let d = Dialog::new("d").on_close().show_close_button(false).close_on_backdrop(false);
    let c = d.chrome();
    assert!(!c.header && !c.close_button && !c.backdrop_closes);
    let d = Dialog::new("d").show_close_button(false).title("Hi").size(DialogSize::Lg);
    assert!(d.chrome().header);
    assert_eq!(d.size.width_rems(), 40);
    assert_eq!(DialogSize::Full.width_rems(), 60);
}

#[test]
fn confirm_dialog() {
    let c = ConfirmDialog::new("c");
    assert_eq!(c.message, "Are you sure?");
    assert_eq!(c.confirm_label, "Confirm");
    assert_eq!(c.cancel_label, "Cancel");
    assert_eq!(c.confirm_variant(), ButtonVariant::Primary);
    assert_eq!(c.cancel_variant(), ButtonVariant::Ghosted);
    assert_eq!(c.border(), ConfirmBorder::Border);
    assert!(!c.backdrop_cancels());
    let c = ConfirmDialog::new("c")
        .title("Delete")
        .message("Really?")
        .confirm_label("Delete")
        .cancel_label("Keep")
        .variant(ConfirmDialogVariant::Destructive)
        .on_cancel()
        .on_confirm();
    assert_eq!(c.title.as_deref(), Some("Delete"));
    assert_eq!(c.confirm_variant(), ButtonVariant::Destructive);
    assert_eq!(c.border(), ConfirmBorder::Destructive);
    assert!(c.backdrop_cancels() && c.has_on_confirm);
    let w = ConfirmDialog::new("c").variant(ConfirmDialogVariant::Warning);
    assert_eq!(w.confirm_variant(), ButtonVariant::Primary);
    assert_eq!(w.border(), ConfirmBorder::Warning);
}

#[test]
fn breadcrumb_layout_and_clicks() {
    let b = Breadcrumbs::new()
        .items(vec![
            BreadcrumbItem::new("home", "Home").icon("house"),
            BreadcrumbItem::new("docs", "Docs").href("/docs"),
            BreadcrumbItem::new("page", "Page"),
        ])
        .separator(BreadcrumbSeparator::Chevron);
    assert_eq!(b.separator.char(), "\u{203a}");
    assert_eq!(
        b.layout(),
        vec![
            CrumbLayout { separator_before: false, current: false },
            CrumbLayout { separator_before: true, current: false },
            CrumbLayout { separator_before: true, current: true },
        ]
    );
    assert_eq!(b.click(0).map(|s| s.as_str()), Some("home"));
    assert_eq!(b.click(2), None);
    assert_eq!(b.items[0].id(), "home");
    assert_eq!(BreadcrumbSeparator::default().char(), "/");
    assert_eq!(BreadcrumbSeparator::Dot.char(), "\u{2022}");
    assert!(Breadcrumbs::default().layout().is_empty());
}

#[test]
fn step_marks_and_connectors() {
    let s = StepIndicator::new(
        "s",
        vec![
            StepItem::new("Account").status(StepItemStatus::Completed),
            StepItem::new("Profile").status(StepItemStatus::Active),
            StepItem::new("Pay").status(StepItemStatus::Error),
            StepItem::new("Review").icon("R"),
            StepItem::new("Done"),
        ],
    )
    .orientation(StepOrientation::Vertical)
    .size(StepIndicatorSize::Sm);
    assert_eq!(s.step_mark(0), "\u{2713}");
    assert_eq!(s.step_mark(1), "2");
    assert_eq!(s.step_mark(2), "\u{2717}");
    assert_eq!(s.step_mark(3), "R");
    assert_eq!(s.step_mark(4), "5");
    assert_eq!(s.connector_after(0), Some(Connector::Completed));
    assert_eq!(s.connector_after(1), Some(Connector::Plain));
    assert_eq!(s.connector_after(4), None);
    assert!(s.circle_bordered(4) && !s.circle_bordered(1));
    assert_eq!(s.size.circle_size(), 24);
    assert!(s.size.font_size_small());
    assert!(!StepIndicatorSize::Lg.font_size_small());
    assert_eq!(StepIndicatorSize::default().circle_size(), 32);
}

#[test]
fn button_set_segments() {
    let set = ButtonSet::new("view")
        .options(vec![
            ButtonSetOption::new("list", "List").icon("list"),
            ButtonSetOption::new("grid", "Grid"),
            ButtonSetOption::new("table", "Table").disabled(true),
        ])
        .selected("grid")
        .size(ButtonSetSize::Lg);
    let first = set.segment(0);
    assert!(!first.selected && first.hover && first.divider_after);
    assert_eq!(first.corners, SegmentCorners::Left);
    let mid = set.segment(1);
    assert!(mid.selected && !mid.hover);
    assert_eq!(mid.corners, SegmentCorners::Square);
    let last = set.segment(2);
    assert!(last.disabled && !last.hover && !last.divider_after);
    assert_eq!(last.corners, SegmentCorners::Right);
    assert_eq!(set.click(0).map(|s| s.as_str()), Some("list"));
    assert_eq!(set.click(2), None);
    let selected: Vec<usize> = (0..3).filter(|i| set.segment(*i).selected).collect();
    assert_eq!(selected, vec![1]);
    assert_eq!(ButtonSetSize::Lg.padding(), (16, 8));
    assert_eq!(ButtonSetSize::Sm.border_radius(), 4);
    assert_eq!(ButtonSetSize::from(ComponentSize::Xl), ButtonSetSize::Lg);
}

#[test]
fn button_set_single_and_disabled() {
    let one = ButtonSet::new("one").options(vec![ButtonSetOption::new("a", "A")]);
    assert_eq!(one.segment(0).corners, SegmentCorners::All);
    let off = ButtonSet::new("off").options(vec![ButtonSetOption::new("a", "A")]).disabled(true);
    assert!(off.segment(0).disabled);
    assert_eq!(off.click(0), None);
}
