use gpui_ui_kit::interactions::{
    is_mute_key, is_reset_key, slider_key_action, value_key_action, KeyModifiers, SliderKeyAction,
    ValueKeyAction,
};

const NONE: KeyModifiers = KeyModifiers { shift: false, control: false, platform: false };

#[test]
fn arrow_steps_depend_on_modifiers() {
    assert_eq!(value_key_action("up", NONE, false), ValueKeyAction::Step(true, 500));
    assert_eq!(value_key_action("left", NONE, false), ValueKeyAction::Step(false, 500));
    let shift = KeyModifiers { shift: true, ..NONE };
    assert_eq!(value_key_action("right", shift, false), ValueKeyAction::Step(true, 100));
    let ctrl = KeyModifiers { control: true, ..NONE };
    assert_eq!(value_key_action("down", ctrl, false), ValueKeyAction::Step(false, 1000));
    let both = KeyModifiers { shift: true, platform: true, control: false };
    assert_eq!(value_key_action("up", both, false), ValueKeyAction::Step(true, 100));
}

#[test]
fn page_home_end_and_media_keys() {
    assert_eq!(value_key_action("pageup", NONE, false), ValueKeyAction::Step(true, 1000));
    assert_eq!(value_key_action("pagedown", NONE, false), ValueKeyAction::Step(false, 1000));
    assert_eq!(value_key_action("home", NONE, false), ValueKeyAction::ToMin);
    assert_eq!(value_key_action("end", NONE, false), ValueKeyAction::ToMax);
    assert_eq!(value_key_action("audioraisevolume", NONE, true), ValueKeyAction::Step(true, 500));
    assert_eq!(value_key_action("audiolowervolume", NONE, true), ValueKeyAction::Step(false, 500));
    assert_eq!(value_key_action("audioraisevolume", NONE, false), ValueKeyAction::Unhandled);
    assert_eq!(value_key_action("q", NONE, true), ValueKeyAction::Unhandled);
}

#[test]
fn every_step_is_at_most_a_tenth() {
    let keys = ["up", "down", "left", "right", "pageup", "pagedown", "audioraisevolume"];
    for key in keys {
        for shift in [false, true] {
            for control in [false, true] {
                let m = KeyModifiers { shift, control, platform: false };
                if let ValueKeyAction::Step(_, s) = value_key_action(key, m, true) {
                    assert!(s > 0 && s <= 1000);
                }
            }
        }
    }
}

#[test]
fn reset_and_mute_keys() {
    assert!(is_reset_key("escape"));
    assert!(!is_reset_key("enter"));
    assert!(is_mute_key("m"));
    assert!(is_mute_key("audiovolumemute"));
    assert!(is_mute_key("f10"));
    assert!(!is_mute_key("f11"));
}

#[test]
fn slider_keys() {
    assert_eq!(slider_key_action("up"), SliderKeyAction::StepUp);
    assert_eq!(slider_key_action("right"), SliderKeyAction::StepUp);
    assert_eq!(slider_key_action("down"), SliderKeyAction::StepDown);
    assert_eq!(slider_key_action("pageup"), SliderKeyAction::PageUp);
    assert_eq!(slider_key_action("pagedown"), SliderKeyAction::PageDown);
    assert_eq!(slider_key_action("home"), SliderKeyAction::ToMin);
    assert_eq!(slider_key_action("end"), SliderKeyAction::ToMax);
    assert_eq!(slider_key_action("space"), SliderKeyAction::Unhandled);
}
