//! Keyboard control of knobs, sliders and potentiometers: which keys move
//! the value, in which direction and by how much of the range.

use vstd::prelude::*;
use crate::text::str_eq;

verus! {

/// How dragging maps to the value.
#[derive(Debug, Clone, Copy, PartialEq, Eq, Structural)]
pub enum DragOrientation {
    /// Up increases the value.
    Vertical,
    /// Right increases the value.
    Horizontal,
    /// Up or right increases the value.
    Rotational,
}

/// Modifier keys held during a key press.
#[derive(Debug, Clone, Copy, PartialEq, Eq, Structural)]
pub struct KeyModifiers {
    pub shift: bool,
    pub control: bool,
    pub platform: bool,
}

/// What a key press does to a control's value. Steps are fractions of the
/// control's travel, in hundredths of a percent (500 is 5%).
#[derive(Debug, Clone, Copy, PartialEq, Eq, Structural)]
pub enum ValueKeyAction {
    /// Move up (`true`) or down by this many hundredths of a percent.
    Step(bool, u32),
    /// Jump to the minimum.
    ToMin,
    /// Jump to the maximum.
    ToMax,
    /// The key does nothing.
    Unhandled,
}

/// Arrow step: 1% with shift, else 10% with control or the platform key, else 5%.
pub open spec fn arrow_step(m: KeyModifiers) -> u32 {
    if m.shift {
        100
    } else if m.control || m.platform {
        1000
    } else {
        500
    }
}

/// Up and right step up and down and left step down by the arrow step; page
/// up and page down move 10%; home and end jump to the ends; with media keys
/// enabled, the volume keys move 5% (the mute key is handled elsewhere).
pub open spec fn value_key_action_spec(key: Seq<char>, m: KeyModifiers, media_keys: bool) -> ValueKeyAction {
    if key == "up"@ || key == "right"@ {
        ValueKeyAction::Step(true, arrow_step(m))
    } else if key == "down"@ || key == "left"@ {
        ValueKeyAction::Step(false, arrow_step(m))
    } else if key == "pageup"@ {
        ValueKeyAction::Step(true, 1000)
    } else if key == "pagedown"@ {
        ValueKeyAction::Step(false, 1000)
    } else if key == "home"@ {
        ValueKeyAction::ToMin
    } else if key == "end"@ {
        ValueKeyAction::ToMax
    } else if media_keys && key == "audiolowervolume"@ {
        ValueKeyAction::Step(false, 500)
    } else if media_keys && key == "audioraisevolume"@ {
        ValueKeyAction::Step(true, 500)
    } else {
        ValueKeyAction::Unhandled
    }
}

/// What a key press does to the value of a knob, slider or potentiometer.
pub fn value_key_action(key: &str, m: KeyModifiers, media_keys: bool) -> (a: ValueKeyAction)
    ensures
        a == value_key_action_spec(key@, m, media_keys),
{
    let step: u32 = if m.shift {
        100
    } else if m.control || m.platform {
        1000
    } else {
        500
    };
    if str_eq(key, "up") || str_eq(key, "right") {
        ValueKeyAction::Step(true, step)
    } else if str_eq(key, "down") || str_eq(key, "left") {
        ValueKeyAction::Step(false, step)
    } else if str_eq(key, "pageup") {
        ValueKeyAction::Step(true, 1000)
    } else if str_eq(key, "pagedown") {
        ValueKeyAction::Step(false, 1000)
    } else if str_eq(key, "home") {
        ValueKeyAction::ToMin
    } else if str_eq(key, "end") {
        ValueKeyAction::ToMax
    } else if media_keys && str_eq(key, "audiolowervolume") {
        ValueKeyAction::Step(false, 500)
    } else if media_keys && str_eq(key, "audioraisevolume") {
        ValueKeyAction::Step(true, 500)
    } else {
        ValueKeyAction::Unhandled
    }
}

/// Whether a key press on a potentiometer or slider asks to reset its value: escape.
pub fn is_reset_key(key: &str) -> (r: bool)
    ensures
        r == (key@ == "escape"@),
{
    str_eq(key, "escape")
}

/// Whether a key press on a volume knob toggles mute: `m`, the mute media
/// key or F10.
pub fn is_mute_key(key: &str) -> (r: bool)
    ensures
        r == (key@ == "m"@ || key@ == "audiovolumemute"@ || key@ == "f10"@),
{
    str_eq(key, "m") || str_eq(key, "audiovolumemute") || str_eq(key, "f10")
}

/// What a key press does to a plain slider.
#[derive(Debug, Clone, Copy, PartialEq, Eq, Structural)]
pub enum SliderKeyAction {
    /// Up by one step (the slider's step, or 5% of the range).
    StepUp,
    /// Down by one step.
    StepDown,
    /// Up by 10% of the range.
    PageUp,
    /// Down by 10% of the range.
    PageDown,
    /// To the minimum.
    ToMin,
    /// To the maximum.
    ToMax,
    /// Nothing.
    Unhandled,
}

/// Up or right, down or left, page up, page down, home, end.
pub open spec fn slider_key_action_spec(key: Seq<char>) -> SliderKeyAction {
    if key == "up"@ || key == "right"@ {
        SliderKeyAction::StepUp
    } else if key == "down"@ || key == "left"@ {
        SliderKeyAction::StepDown
    } else if key == "pageup"@ {
        SliderKeyAction::PageUp
    } else if key == "pagedown"@ {
        SliderKeyAction::PageDown
    } else if key == "home"@ {
        SliderKeyAction::ToMin
    } else if key == "end"@ {
        SliderKeyAction::ToMax
    } else {
        SliderKeyAction::Unhandled
    }
}

/// What a key press does to a plain slider.
pub fn slider_key_action(key: &str) -> (a: SliderKeyAction)
    ensures
        a == slider_key_action_spec(key@),
{
    if str_eq(key, "up") || str_eq(key, "right") {
        SliderKeyAction::StepUp
    } else if str_eq(key, "down") || str_eq(key, "left") {
        SliderKeyAction::StepDown
    } else if str_eq(key, "pageup") {
        SliderKeyAction::PageUp
    } else if str_eq(key, "pagedown") {
        SliderKeyAction::PageDown
    } else if str_eq(key, "home") {
        SliderKeyAction::ToMin
    } else if str_eq(key, "end") {
        SliderKeyAction::ToMax
    } else {
        SliderKeyAction::Unhandled
    }
}

/// Law: every step a key asks for is a positive fraction of the travel no
/// larger than a tenth.
pub proof fn lemma_steps_are_small(key: Seq<char>, m: KeyModifiers, media_keys: bool)
    ensures
        value_key_action_spec(key, m, media_keys) matches ValueKeyAction::Step(_, s) ==> 0 < s
            <= 1000,
{
}

/// The arrow and paging key names differ from one another.
proof fn lemma_key_names_differ()
    ensures
        "up"@.len() == 2 && "down"@.len() == 4 && "left"@.len() == 4 && "right"@.len() == 5,
        "home"@.len() == 4 && "end"@.len() == 3,
        "pageup"@.len() == 6 && "pagedown"@.len() == 8,
        "down"@[0] == 'd' && "left"@[0] == 'l' && "home"@[0] == 'h',
{
    reveal_strlit("up");
    reveal_strlit("down");
    reveal_strlit("left");
    reveal_strlit("right");
    reveal_strlit("home");
    reveal_strlit("end");
    reveal_strlit("pageup");
    reveal_strlit("pagedown");
}

/// Law: the keys that step a plain slider down are exactly `down` and `left`,
/// and those that step it up exactly `up` and `right`, so the two arrows of
/// each axis move the value in opposite directions; `home` goes to the
/// minimum and `end` to the maximum.
pub proof fn lemma_slider_arrows(key: Seq<char>)
    ensures
        slider_key_action_spec(key) == SliderKeyAction::StepDown <==> (key == "down"@ || key
            == "left"@),
        slider_key_action_spec(key) == SliderKeyAction::StepUp <==> (key == "up"@ || key
            == "right"@),
        slider_key_action_spec("left"@) != slider_key_action_spec("right"@),
        slider_key_action_spec("down"@) != slider_key_action_spec("up"@),
        slider_key_action_spec("home"@) == SliderKeyAction::ToMin,
        slider_key_action_spec("end"@) == SliderKeyAction::ToMax,
{
    lemma_key_names_differ();
}

/// Law: on a knob, slider or potentiometer, `up` and `right` step the value
/// up and `down` and `left` step it down, all by the same arrow step, and
/// `home` and `end` go to the two ends.
pub proof fn lemma_value_arrows(m: KeyModifiers, media_keys: bool)
    ensures
        value_key_action_spec("up"@, m, media_keys) == ValueKeyAction::Step(true, arrow_step(m)),
        value_key_action_spec("right"@, m, media_keys) == ValueKeyAction::Step(true, arrow_step(m)),
        value_key_action_spec("down"@, m, media_keys) == ValueKeyAction::Step(false, arrow_step(m)),
        value_key_action_spec("left"@, m, media_keys) == ValueKeyAction::Step(false, arrow_step(m)),
        value_key_action_spec("home"@, m, media_keys) == ValueKeyAction::ToMin,
        value_key_action_spec("end"@, m, media_keys) == ValueKeyAction::ToMax,
{
    lemma_key_names_differ();
}

} // verus!
