//! The state of a color picker: the color being edited, the color it started
//! from, and whether its sliders show RGB or HSL channels.

use vstd::prelude::*;
use crate::color::Color;
use crate::text::str_eq;

verus! {

/// Which channels the sliders of the picker show.
#[derive(Debug, Clone, Copy, PartialEq, Eq, Structural)]
pub enum ColorPickerMode {
    /// Red, green and blue.
    RGB,
    /// Hue, saturation and lightness.
    HSL,
}

impl Default for ColorPickerMode {
    /// Red, green and blue.
    fn default() -> (m: ColorPickerMode)
        ensures
            m == ColorPickerMode::RGB,
    {
        ColorPickerMode::RGB
    }
}

/// The other mode.
pub open spec fn toggled(mode: ColorPickerMode) -> ColorPickerMode {
    match mode {
        ColorPickerMode::RGB => ColorPickerMode::HSL,
        ColorPickerMode::HSL => ColorPickerMode::RGB,
    }
}

/// What a slider of the picker changes.
#[derive(Debug, Clone, Copy, PartialEq, Eq, Structural)]
pub enum SliderTarget {
    Red,
    Green,
    Blue,
    Alpha,
    Hue,
    Saturation,
    Lightness,
    /// The slider changes nothing in this mode.
    Nothing,
}

/// What the slider labelled `label` changes in `mode`: `R`, `G` and `B` in
/// RGB mode, `H`, `S` and `L` in HSL mode, and `A` in either.
pub open spec fn slider_target_spec(mode: ColorPickerMode, label: Seq<char>) -> SliderTarget {
    if mode == ColorPickerMode::RGB && label == "R"@ {
        SliderTarget::Red
    } else if mode == ColorPickerMode::RGB && label == "G"@ {
        SliderTarget::Green
    } else if mode == ColorPickerMode::RGB && label == "B"@ {
        SliderTarget::Blue
    } else if mode == ColorPickerMode::HSL && label == "H"@ {
        SliderTarget::Hue
    } else if mode == ColorPickerMode::HSL && label == "S"@ {
        SliderTarget::Saturation
    } else if mode == ColorPickerMode::HSL && label == "L"@ {
        SliderTarget::Lightness
    } else if label == "A"@ {
        SliderTarget::Alpha
    } else {
        SliderTarget::Nothing
    }
}

/// What the slider labelled `label` changes in `mode` (see `slider_target_spec`).
pub fn slider_target(mode: ColorPickerMode, label: &str) -> (t: SliderTarget)
    ensures
        t == slider_target_spec(mode, label@),
{
    let rgb = mode == ColorPickerMode::RGB;
    let hsl = mode == ColorPickerMode::HSL;
    if rgb && str_eq(label, "R") {
        SliderTarget::Red
    } else if rgb && str_eq(label, "G") {
        SliderTarget::Green
    } else if rgb && str_eq(label, "B") {
        SliderTarget::Blue
    } else if hsl && str_eq(label, "H") {
        SliderTarget::Hue
    } else if hsl && str_eq(label, "S") {
        SliderTarget::Saturation
    } else if hsl && str_eq(label, "L") {
        SliderTarget::Lightness
    } else if str_eq(label, "A") {
        SliderTarget::Alpha
    } else {
        SliderTarget::Nothing
    }
}

/// `c` with the 8-bit channel that `target` names set to `value`; unchanged
/// for the hue, saturation and lightness sliders and for `Nothing`.
pub open spec fn with_channel(c: Color, target: SliderTarget, value: u8) -> Color {
    match target {
        SliderTarget::Red => Color { r: value, ..c },
        SliderTarget::Green => Color { g: value, ..c },
        SliderTarget::Blue => Color { b: value, ..c },
        SliderTarget::Alpha => Color { a: value, ..c },
        _ => c,
    }
}

/// A color picker: the color being edited, the color it started from, the
/// slider mode and the title.
pub struct ColorPickerView {
    /// The color being edited.
    pub color: Color,
    /// The color that a reset goes back to.
    pub original_color: Color,
    /// Which channels the sliders show.
    pub mode: ColorPickerMode,
    /// The title shown above the sliders.
    pub label: String,
}

impl ColorPickerView {
    /// A picker on `color`, which is also what a reset goes back to, with RGB
    /// sliders.
    pub fn new(label: &str, color: Color) -> (v: ColorPickerView)
        ensures
            v.color == color,
            v.original_color == color,
            v.mode == ColorPickerMode::RGB,
            v.label@ == label@,
    {
        ColorPickerView {
            color,
            original_color: color,
            mode: ColorPickerMode::RGB,
            label: label.to_owned(),
        }
    }

    /// The color being edited.
    pub fn color(&self) -> (c: Color)
        ensures
            c == self.color,
    {
        self.color
    }

    /// Starts over on `color`: it is edited, and a reset goes back to it.
    pub fn set_color(&mut self, color: Color)
        ensures
            final(self).color == color,
            final(self).original_color == color,
            final(self).mode == old(self).mode,
            final(self).label == old(self).label,
    {
        self.color = color;
        self.original_color = color;
    }

    /// Sets the red channel.
    pub fn update_red(&mut self, value: u8)
        ensures
            final(self).color == (Color { r: value, ..old(self).color }),
            final(self).original_color == old(self).original_color,
            final(self).mode == old(self).mode,
            final(self).label == old(self).label,
    {
        self.color.r = value;
    }

    /// Sets the green channel.
    pub fn update_green(&mut self, value: u8)
        ensures
            final(self).color == (Color { g: value, ..old(self).color }),
            final(self).original_color == old(self).original_color,
            final(self).mode == old(self).mode,
            final(self).label == old(self).label,
    {
        self.color.g = value;
    }

    /// Sets the blue channel.
    pub fn update_blue(&mut self, value: u8)
        ensures
            final(self).color == (Color { b: value, ..old(self).color }),
            final(self).original_color == old(self).original_color,
            final(self).mode == old(self).mode,
            final(self).label == old(self).label,
    {
        self.color.b = value;
    }

    /// Sets the alpha channel.
    pub fn update_alpha(&mut self, value: u8)
        ensures
            final(self).color == (Color { a: value, ..old(self).color }),
            final(self).original_color == old(self).original_color,
            final(self).mode == old(self).mode,
            final(self).label == old(self).label,
    {
        self.color.a = value;
    }

    /// Switches the sliders between RGB and HSL.
    pub fn toggle_mode(&mut self)
        ensures
            final(self).mode == toggled(old(self).mode),
            final(self).color == old(self).color,
            final(self).original_color == old(self).original_color,
            final(self).label == old(self).label,
    {
        self.mode = match self.mode {
            ColorPickerMode::RGB => ColorPickerMode::HSL,
            ColorPickerMode::HSL => ColorPickerMode::RGB,
        };
    }

    /// Goes back to the color the picker started from.
    pub fn reset_color(&mut self)
        ensures
            final(self).color == old(self).original_color,
            final(self).original_color == old(self).original_color,
            final(self).mode == old(self).mode,
            final(self).label == old(self).label,
    {
        self.color = self.original_color;
    }

    /// Applies an 8-bit slider value to the channel that `target` names; the
    /// hue, saturation and lightness sliders are not 8-bit channels and leave
    /// the color as it is here.
    pub fn apply_channel(&mut self, target: SliderTarget, value: u8)
        ensures
            final(self).color == with_channel(old(self).color, target, value),
            final(self).original_color == old(self).original_color,
            final(self).mode == old(self).mode,
            final(self).label == old(self).label,
    {
        match target {
            SliderTarget::Red => self.update_red(value),
            SliderTarget::Green => self.update_green(value),
            SliderTarget::Blue => self.update_blue(value),
            SliderTarget::Alpha => self.update_alpha(value),
            _ => {},
        }
    }
}

/// Law: switching the slider mode twice gives the mode back.
pub proof fn lemma_toggle_twice(mode: ColorPickerMode)
    ensures
        toggled(toggled(mode)) == mode,
{
}

/// Law: the RGB sliders never reach the HSL channels and the HSL sliders
/// never reach the red, green or blue channel; the alpha slider works in both.
pub proof fn lemma_slider_targets_follow_mode(mode: ColorPickerMode, label: Seq<char>)
    ensures
        mode == ColorPickerMode::RGB ==> !(slider_target_spec(mode, label) is Hue
            || slider_target_spec(mode, label) is Saturation
            || slider_target_spec(mode, label) is Lightness),
        mode == ColorPickerMode::HSL ==> !(slider_target_spec(mode, label) is Red
            || slider_target_spec(mode, label) is Green
            || slider_target_spec(mode, label) is Blue),
        label == "A"@ ==> slider_target_spec(mode, label) == SliderTarget::Alpha,
{
    reveal_strlit("A");
    reveal_strlit("R");
    reveal_strlit("G");
    reveal_strlit("B");
    reveal_strlit("H");
    reveal_strlit("S");
    reveal_strlit("L");
    assert("A"@[0] == 'A' && "R"@[0] == 'R' && "G"@[0] == 'G' && "B"@[0] == 'B');
    assert("H"@[0] == 'H' && "S"@[0] == 'S' && "L"@[0] == 'L');
}

/// Law: each 8-bit channel slider sets its own channel of the color to the
/// slider value and leaves the other three channels as they were; the hue,
/// saturation and lightness sliders, and a slider of no channel, change none
/// of them.
pub proof fn lemma_channel_sliders(c: Color, v: u8)
    ensures
        ({
            let n = with_channel(c, SliderTarget::Red, v);
            n.r == v && n.g == c.g && n.b == c.b && n.a == c.a
        }),
        ({
            let n = with_channel(c, SliderTarget::Green, v);
            n.r == c.r && n.g == v && n.b == c.b && n.a == c.a
        }),
        ({
            let n = with_channel(c, SliderTarget::Blue, v);
            n.r == c.r && n.g == c.g && n.b == v && n.a == c.a
        }),
        ({
            let n = with_channel(c, SliderTarget::Alpha, v);
            n.r == c.r && n.g == c.g && n.b == c.b && n.a == v
        }),
        with_channel(c, SliderTarget::Hue, v) == c,
        with_channel(c, SliderTarget::Saturation, v) == c,
        with_channel(c, SliderTarget::Lightness, v) == c,
        with_channel(c, SliderTarget::Nothing, v) == c,
{
}

/// Law: the labels `R`, `G`, `B` and `A` reach the red, green, blue and alpha
/// channels of the color: in RGB mode the slider labelled `R` sets `r`, and so
/// on, and `A` sets the alpha in either mode.
pub proof fn lemma_labels_reach_their_channel(c: Color, v: u8, mode: ColorPickerMode)
    ensures
        with_channel(c, slider_target_spec(ColorPickerMode::RGB, "R"@), v).r == v,
        with_channel(c, slider_target_spec(ColorPickerMode::RGB, "G"@), v).g == v,
        with_channel(c, slider_target_spec(ColorPickerMode::RGB, "B"@), v).b == v,
        with_channel(c, slider_target_spec(mode, "A"@), v).a == v,
{
    lemma_slider_targets_follow_mode(mode, "A"@);
    reveal_strlit("R");
    reveal_strlit("G");
    reveal_strlit("B");
    assert("R"@[0] == 'R' && "G"@[0] == 'G' && "B"@[0] == 'B');
}

} // verus!
