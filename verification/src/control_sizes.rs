//! Size tables of the audio controls, sliders, number fields, progress bars
//! and spinners: the standard size each takes and its dimensions in pixels.

use vstd::prelude::*;
use crate::size::ComponentSize;

verus! {

/// The size of a potentiometer knob.
#[derive(Debug, Clone, Copy, PartialEq, Eq, Structural)]
pub enum PotentiometerSize {
    Xs,
    Sm,
    Md,
    Lg,
}

impl Default for PotentiometerSize {
    /// Medium.
    fn default() -> (s: PotentiometerSize)
        ensures
            s == PotentiometerSize::Md,
    {
        PotentiometerSize::Md
    }
}

/// The potentiometer size for a standard size: extra large knobs are large.
pub open spec fn potentiometer_size_of(size: ComponentSize) -> PotentiometerSize {
    match size {
        ComponentSize::Xs => PotentiometerSize::Xs,
        ComponentSize::Sm => PotentiometerSize::Sm,
        ComponentSize::Md => PotentiometerSize::Md,
        ComponentSize::Lg | ComponentSize::Xl => PotentiometerSize::Lg,
    }
}

impl From<ComponentSize> for PotentiometerSize {
    fn from(size: ComponentSize) -> (s: PotentiometerSize) {
        match size {
            ComponentSize::Xs => PotentiometerSize::Xs,
            ComponentSize::Sm => PotentiometerSize::Sm,
            ComponentSize::Md => PotentiometerSize::Md,
            ComponentSize::Lg | ComponentSize::Xl => PotentiometerSize::Lg,
        }
    }
}

impl vstd::std_specs::convert::FromSpecImpl<ComponentSize> for PotentiometerSize {
    open spec fn obeys_from_spec() -> bool {
        true
    }

    open spec fn from_spec(size: ComponentSize) -> PotentiometerSize {
        potentiometer_size_of(size)
    }
}

impl PotentiometerSize {
    /// Diameter of the knob: 30, 40, 60 or 80 pixels.
    pub fn knob_size(&self) -> (px: u32)
        ensures
            px == match *self {
                PotentiometerSize::Xs => 30u32,
                PotentiometerSize::Sm => 40,
                PotentiometerSize::Md => 60,
                PotentiometerSize::Lg => 80,
            },
    {
        match self {
            PotentiometerSize::Xs => 30,
            PotentiometerSize::Sm => 40,
            PotentiometerSize::Md => 60,
            PotentiometerSize::Lg => 80,
        }
    }

    /// Radius of the value indicator: 10, 14, 20 or 26 pixels.
    pub fn indicator_radius(&self) -> (px: u32)
        ensures
            px == match *self {
                PotentiometerSize::Xs => 10u32,
                PotentiometerSize::Sm => 14,
                PotentiometerSize::Md => 20,
                PotentiometerSize::Lg => 26,
            },
    {
        match self {
            PotentiometerSize::Xs => 10,
            PotentiometerSize::Sm => 14,
            PotentiometerSize::Md => 20,
            PotentiometerSize::Lg => 26,
        }
    }

    /// Least width of the control: 65, 80, 100 or 120 pixels.
    pub fn min_width(&self) -> (px: u32)
        ensures
            px == match *self {
                PotentiometerSize::Xs => 65u32,
                PotentiometerSize::Sm => 80,
                PotentiometerSize::Md => 100,
                PotentiometerSize::Lg => 120,
            },
    {
        match self {
            PotentiometerSize::Xs => 65,
            PotentiometerSize::Sm => 80,
            PotentiometerSize::Md => 100,
            PotentiometerSize::Lg => 120,
        }
    }
}

/// The size of a vertical slider.
#[derive(Debug, Clone, Copy, PartialEq, Eq, Structural)]
pub enum VerticalSliderSize {
    Sm,
    Md,
    Lg,
}

impl Default for VerticalSliderSize {
    /// Medium.
    fn default() -> (s: VerticalSliderSize)
        ensures
            s == VerticalSliderSize::Md,
    {
        VerticalSliderSize::Md
    }
}

/// The vertical slider size for a standard size: the two smallest are small, the two largest large.
pub open spec fn vertical_slider_size_of(size: ComponentSize) -> VerticalSliderSize {
    match size {
        ComponentSize::Xs | ComponentSize::Sm => VerticalSliderSize::Sm,
        ComponentSize::Md => VerticalSliderSize::Md,
        ComponentSize::Lg | ComponentSize::Xl => VerticalSliderSize::Lg,
    }
}

impl From<ComponentSize> for VerticalSliderSize {
    fn from(size: ComponentSize) -> (s: VerticalSliderSize) {
        match size {
            ComponentSize::Xs | ComponentSize::Sm => VerticalSliderSize::Sm,
            ComponentSize::Md => VerticalSliderSize::Md,
            ComponentSize::Lg | ComponentSize::Xl => VerticalSliderSize::Lg,
        }
    }
}

impl vstd::std_specs::convert::FromSpecImpl<ComponentSize> for VerticalSliderSize {
    open spec fn obeys_from_spec() -> bool {
        true
    }

    open spec fn from_spec(size: ComponentSize) -> VerticalSliderSize {
        vertical_slider_size_of(size)
    }
}

impl VerticalSliderSize {
    /// Width of the track: 14, 18 or 24 pixels.
    pub fn track_width(&self) -> (px: u32)
        ensures
            px == match *self {
                VerticalSliderSize::Sm => 14u32,
                VerticalSliderSize::Md => 18,
                VerticalSliderSize::Lg => 24,
            },
    {
        match self {
            VerticalSliderSize::Sm => 14,
            VerticalSliderSize::Md => 18,
            VerticalSliderSize::Lg => 24,
        }
    }

    /// Height of the track: 80, 120 or 160 pixels.
    pub fn track_height(&self) -> (px: u32)
        ensures
            px == match *self {
                VerticalSliderSize::Sm => 80u32,
                VerticalSliderSize::Md => 120,
                VerticalSliderSize::Lg => 160,
            },
    {
        match self {
            VerticalSliderSize::Sm => 80,
            VerticalSliderSize::Md => 120,
            VerticalSliderSize::Lg => 160,
        }
    }

    /// Least width of the control: 50, 70 or 90 pixels.
    pub fn min_width(&self) -> (px: u32)
        ensures
            px == match *self {
                VerticalSliderSize::Sm => 50u32,
                VerticalSliderSize::Md => 70,
                VerticalSliderSize::Lg => 90,
            },
    {
        match self {
            VerticalSliderSize::Sm => 50,
            VerticalSliderSize::Md => 70,
            VerticalSliderSize::Lg => 90,
        }
    }
}

/// The size of a horizontal slider.
#[derive(Debug, Clone, Copy, PartialEq, Eq, Structural)]
pub enum SliderSize {
    Sm,
    Md,
    Lg,
}

impl Default for SliderSize {
    /// Medium.
    fn default() -> (s: SliderSize)
        ensures
            s == SliderSize::Md,
    {
        SliderSize::Md
    }
}

/// The slider size for a standard size: the two smallest are small, the two largest large.
pub open spec fn slider_size_of(size: ComponentSize) -> SliderSize {
    match size {
        ComponentSize::Xs | ComponentSize::Sm => SliderSize::Sm,
        ComponentSize::Md => SliderSize::Md,
        ComponentSize::Lg | ComponentSize::Xl => SliderSize::Lg,
    }
}

impl From<ComponentSize> for SliderSize {
    fn from(size: ComponentSize) -> (s: SliderSize) {
        match size {
            ComponentSize::Xs | ComponentSize::Sm => SliderSize::Sm,
            ComponentSize::Md => SliderSize::Md,
            ComponentSize::Lg | ComponentSize::Xl => SliderSize::Lg,
        }
    }
}

impl vstd::std_specs::convert::FromSpecImpl<ComponentSize> for SliderSize {
    open spec fn obeys_from_spec() -> bool {
        true
    }

    open spec fn from_spec(size: ComponentSize) -> SliderSize {
        slider_size_of(size)
    }
}

impl SliderSize {
    /// Height of the track: 4, 6 or 8 pixels.
    pub fn track_height(&self) -> (px: u32)
        ensures
            px == match *self {
                SliderSize::Sm => 4u32,
                SliderSize::Md => 6,
                SliderSize::Lg => 8,
            },
    {
        match self {
            SliderSize::Sm => 4,
            SliderSize::Md => 6,
            SliderSize::Lg => 8,
        }
    }

    /// Diameter of the thumb: 14, 18 or 22 pixels.
    pub fn thumb_size(&self) -> (px: u32)
        ensures
            px == match *self {
                SliderSize::Sm => 14u32,
                SliderSize::Md => 18,
                SliderSize::Lg => 22,
            },
    {
        match self {
            SliderSize::Sm => 14,
            SliderSize::Md => 18,
            SliderSize::Lg => 22,
        }
    }
}

/// The thickness class of a progress bar.
#[derive(Debug, Clone, Copy, PartialEq, Eq, Structural)]
pub enum ProgressSize {
    Xs,
    Sm,
    Md,
    Lg,
}

impl Default for ProgressSize {
    /// Medium.
    fn default() -> (s: ProgressSize)
        ensures
            s == ProgressSize::Md,
    {
        ProgressSize::Md
    }
}

/// The progress bar size for a standard size: extra large bars are large.
pub open spec fn progress_size_of(size: ComponentSize) -> ProgressSize {
    match size {
        ComponentSize::Xs => ProgressSize::Xs,
        ComponentSize::Sm => ProgressSize::Sm,
        ComponentSize::Md => ProgressSize::Md,
        ComponentSize::Lg | ComponentSize::Xl => ProgressSize::Lg,
    }
}

impl From<ComponentSize> for ProgressSize {
    fn from(size: ComponentSize) -> (s: ProgressSize) {
        match size {
            ComponentSize::Xs => ProgressSize::Xs,
            ComponentSize::Sm => ProgressSize::Sm,
            ComponentSize::Md => ProgressSize::Md,
            ComponentSize::Lg | ComponentSize::Xl => ProgressSize::Lg,
        }
    }
}

impl vstd::std_specs::convert::FromSpecImpl<ComponentSize> for ProgressSize {
    open spec fn obeys_from_spec() -> bool {
        true
    }

    open spec fn from_spec(size: ComponentSize) -> ProgressSize {
        progress_size_of(size)
    }
}

impl ProgressSize {
    /// Height of the bar: 2, 4, 8 or 12 pixels.
    pub fn height(&self) -> (px: u32)
        ensures
            px == match *self {
                ProgressSize::Xs => 2u32,
                ProgressSize::Sm => 4,
                ProgressSize::Md => 8,
                ProgressSize::Lg => 12,
            },
    {
        match self {
            ProgressSize::Xs => 2,
            ProgressSize::Sm => 4,
            ProgressSize::Md => 8,
            ProgressSize::Lg => 12,
        }
    }
}

/// The size of a spinner.
#[derive(Debug, Clone, Copy, PartialEq, Eq, Structural)]
pub enum SpinnerSize {
    Xs,
    Sm,
    Md,
    Lg,
    Xl,
}

impl Default for SpinnerSize {
    /// Medium.
    fn default() -> (s: SpinnerSize)
        ensures
            s == SpinnerSize::Md,
    {
        SpinnerSize::Md
    }
}

/// The spinner size for a standard size.
pub open spec fn spinner_size_of(size: ComponentSize) -> SpinnerSize {
    match size {
        ComponentSize::Xs => SpinnerSize::Xs,
        ComponentSize::Sm => SpinnerSize::Sm,
        ComponentSize::Md => SpinnerSize::Md,
        ComponentSize::Lg => SpinnerSize::Lg,
        ComponentSize::Xl => SpinnerSize::Xl,
    }
}

impl From<ComponentSize> for SpinnerSize {
    fn from(size: ComponentSize) -> (s: SpinnerSize) {
        match size {
            ComponentSize::Xs => SpinnerSize::Xs,
            ComponentSize::Sm => SpinnerSize::Sm,
            ComponentSize::Md => SpinnerSize::Md,
            ComponentSize::Lg => SpinnerSize::Lg,
            ComponentSize::Xl => SpinnerSize::Xl,
        }
    }
}

impl vstd::std_specs::convert::FromSpecImpl<ComponentSize> for SpinnerSize {
    open spec fn obeys_from_spec() -> bool {
        true
    }

    open spec fn from_spec(size: ComponentSize) -> SpinnerSize {
        spinner_size_of(size)
    }
}

impl SpinnerSize {
    /// Diameter of the spinner: 12, 16, 24, 32 or 48 pixels.
    pub fn size(&self) -> (px: u32)
        ensures
            px == match *self {
                SpinnerSize::Xs => 12u32,
                SpinnerSize::Sm => 16,
                SpinnerSize::Md => 24,
                SpinnerSize::Lg => 32,
                SpinnerSize::Xl => 48,
            },
    {
        match self {
            SpinnerSize::Xs => 12,
            SpinnerSize::Sm => 16,
            SpinnerSize::Md => 24,
            SpinnerSize::Lg => 32,
            SpinnerSize::Xl => 48,
        }
    }

    /// Diameter of a loading dot: 4, 6, 8, 10 or 12 pixels.
    pub fn dot_size(&self) -> (px: u32)
        ensures
            px == match *self {
                SpinnerSize::Xs => 4u32,
                SpinnerSize::Sm => 6,
                SpinnerSize::Md => 8,
                SpinnerSize::Lg => 10,
                SpinnerSize::Xl => 12,
            },
    {
        match self {
            SpinnerSize::Xs => 4,
            SpinnerSize::Sm => 6,
            SpinnerSize::Md => 8,
            SpinnerSize::Lg => 10,
            SpinnerSize::Xl => 12,
        }
    }
}

/// The size of a number field.
#[derive(Debug, Clone, Copy, PartialEq, Eq, Structural)]
pub enum NumberInputSize {
    Xs,
    Sm,
    Md,
    Lg,
}

impl Default for NumberInputSize {
    /// Medium.
    fn default() -> (s: NumberInputSize)
        ensures
            s == NumberInputSize::Md,
    {
        NumberInputSize::Md
    }
}

/// The number field size for a standard size: extra large fields are large.
pub open spec fn number_input_size_of(size: ComponentSize) -> NumberInputSize {
    match size {
        ComponentSize::Xs => NumberInputSize::Xs,
        ComponentSize::Sm => NumberInputSize::Sm,
        ComponentSize::Md => NumberInputSize::Md,
        ComponentSize::Lg | ComponentSize::Xl => NumberInputSize::Lg,
    }
}

impl From<ComponentSize> for NumberInputSize {
    fn from(size: ComponentSize) -> (s: NumberInputSize) {
        match size {
            ComponentSize::Xs => NumberInputSize::Xs,
            ComponentSize::Sm => NumberInputSize::Sm,
            ComponentSize::Md => NumberInputSize::Md,
            ComponentSize::Lg | ComponentSize::Xl => NumberInputSize::Lg,
        }
    }
}

impl vstd::std_specs::convert::FromSpecImpl<ComponentSize> for NumberInputSize {
    open spec fn obeys_from_spec() -> bool {
        true
    }

    open spec fn from_spec(size: ComponentSize) -> NumberInputSize {
        number_input_size_of(size)
    }
}

impl NumberInputSize {
    /// Height of the field: 20, 24, 32 or 40 pixels.
    pub fn height(&self) -> (px: u32)
        ensures
            px == match *self {
                NumberInputSize::Xs => 20u32,
                NumberInputSize::Sm => 24,
                NumberInputSize::Md => 32,
                NumberInputSize::Lg => 40,
            },
    {
        match self {
            NumberInputSize::Xs => 20,
            NumberInputSize::Sm => 24,
            NumberInputSize::Md => 32,
            NumberInputSize::Lg => 40,
        }
    }

    /// Width of the step buttons: 16, 20, 28 or 36 pixels.
    pub fn button_width(&self) -> (px: u32)
        ensures
            px == match *self {
                NumberInputSize::Xs => 16u32,
                NumberInputSize::Sm => 20,
                NumberInputSize::Md => 28,
                NumberInputSize::Lg => 36,
            },
    {
        match self {
            NumberInputSize::Xs => 16,
            NumberInputSize::Sm => 20,
            NumberInputSize::Md => 28,
            NumberInputSize::Lg => 36,
        }
    }

    /// Text size: 10, 11, 13 or 15 pixels.
    pub fn font_size(&self) -> (px: u32)
        ensures
            px == match *self {
                NumberInputSize::Xs => 10u32,
                NumberInputSize::Sm => 11,
                NumberInputSize::Md => 13,
                NumberInputSize::Lg => 15,
            },
    {
        match self {
            NumberInputSize::Xs => 10,
            NumberInputSize::Sm => 11,
            NumberInputSize::Md => 13,
            NumberInputSize::Lg => 15,
        }
    }

    /// Inner padding: 2, 4, 8 or 12 pixels.
    pub fn padding(&self) -> (px: u32)
        ensures
            px == match *self {
                NumberInputSize::Xs => 2u32,
                NumberInputSize::Sm => 4,
                NumberInputSize::Md => 8,
                NumberInputSize::Lg => 12,
            },
    {
        match self {
            NumberInputSize::Xs => 2,
            NumberInputSize::Sm => 4,
            NumberInputSize::Md => 8,
            NumberInputSize::Lg => 12,
        }
    }
}

/// The tone of a progress bar.
#[derive(Debug, Clone, Copy, PartialEq, Eq, Structural)]
pub enum ProgressVariant {
    Default,
    Success,
    Warning,
    Error,
}

impl Default for ProgressVariant {
    /// The neutral tone.
    fn default() -> (v: ProgressVariant)
        ensures
            v == ProgressVariant::Default,
    {
        ProgressVariant::Default
    }
}

/// A theme color a progress bar fills with.
#[derive(Debug, Clone, Copy, PartialEq, Eq, Structural)]
pub enum ProgressColor {
    Accent,
    Success,
    Warning,
    Error,
}

impl ProgressVariant {
    /// The fill color: the accent for the neutral tone, the tone's own
    /// color otherwise.
    pub fn color(&self) -> (c: ProgressColor)
        ensures
            c == match *self {
                ProgressVariant::Default => ProgressColor::Accent,
                ProgressVariant::Success => ProgressColor::Success,
                ProgressVariant::Warning => ProgressColor::Warning,
                ProgressVariant::Error => ProgressColor::Error,
            },
    {
        match self {
            ProgressVariant::Default => ProgressColor::Accent,
            ProgressVariant::Success => ProgressColor::Success,
            ProgressVariant::Warning => ProgressColor::Warning,
            ProgressVariant::Error => ProgressColor::Error,
        }
    }
}

} // verus!
