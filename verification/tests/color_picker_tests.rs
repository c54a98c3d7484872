use gpui_ui_kit::color::Color;
use gpui_ui_kit::color_picker::{slider_target, ColorPickerMode, ColorPickerView, SliderTarget};

#[test]
fn picker_starts_on_its_color_in_rgb_mode() {
    let v = ColorPickerView::new("Accent", Color::rgb(10, 20, 30));
    assert_eq!(v.color(), Color::rgb(10, 20, 30));
    assert_eq!(v.original_color, Color::rgb(10, 20, 30));
    assert_eq!(v.mode, ColorPickerMode::RGB);
    assert_eq!(v.label, "Accent");
    assert_eq!(ColorPickerMode::default(), ColorPickerMode::RGB);
}

#[test]
fn channel_updates_then_reset() {
    let mut v = ColorPickerView::new("c", Color::rgb(10, 20, 30));
    v.update_red(200);
    v.update_green(1);
    v.update_blue(2);
    v.update_alpha(3);
    assert_eq!(v.color(), Color::new(200, 1, 2, 3));
    assert_eq!(v.original_color, Color::rgb(10, 20, 30));
    v.reset_color();
    assert_eq!(v.color(), Color::rgb(10, 20, 30));
    v.set_color(Color::rgb(1, 1, 1));
    v.update_red(9);
    v.reset_color();
    assert_eq!(v.color(), Color::rgb(1, 1, 1));
}

#[test]
fn toggling_the_mode_twice_returns() {
    let mut v = ColorPickerView::new("c", Color::default());
    v.toggle_mode();
    assert_eq!(v.mode, ColorPickerMode::HSL);
    v.toggle_mode();
    assert_eq!(v.mode, ColorPickerMode::RGB);
    assert_eq!(v.color(), Color::default());
}

#[test]
fn slider_labels_follow_the_mode() {
    assert_eq!(slider_target(ColorPickerMode::RGB, "R"), SliderTarget::Red);
    assert_eq!(slider_target(ColorPickerMode::RGB, "G"), SliderTarget::Green);
    assert_eq!(slider_target(ColorPickerMode::RGB, "B"), SliderTarget::Blue);
    assert_eq!(slider_target(ColorPickerMode::RGB, "H"), SliderTarget::Nothing);
    assert_eq!(slider_target(ColorPickerMode::HSL, "H"), SliderTarget::Hue);
    assert_eq!(slider_target(ColorPickerMode::HSL, "S"), SliderTarget::Saturation);
    assert_eq!(slider_target(ColorPickerMode::HSL, "L"), SliderTarget::Lightness);
    assert_eq!(slider_target(ColorPickerMode::HSL, "R"), SliderTarget::Nothing);
    assert_eq!(slider_target(ColorPickerMode::RGB, "A"), SliderTarget::Alpha);
    assert_eq!(slider_target(ColorPickerMode::HSL, "A"), SliderTarget::Alpha);
    assert_eq!(slider_target(ColorPickerMode::HSL, "x"), SliderTarget::Nothing);
}

#[test]
fn apply_channel_sets_only_its_channel() {
    let mut v = ColorPickerView::new("c", Color::new(1, 2, 3, 4));
    v.apply_channel(SliderTarget::Green, 77);
    assert_eq!(v.color(), Color::new(1, 77, 3, 4));
    v.apply_channel(SliderTarget::Alpha, 0);
    assert_eq!(v.color(), Color::new(1, 77, 3, 0));
    v.apply_channel(SliderTarget::Hue, 9);
    v.apply_channel(SliderTarget::Nothing, 9);
    assert_eq!(v.color(), Color::new(1, 77, 3, 0));
}
