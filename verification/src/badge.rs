//! Badges and tags: small labels, their tones and sizes, and the parts a
//! tag shows.

use vstd::prelude::*;
use crate::size::ComponentSize;

verus! {

/// The tone of a badge.
#[derive(Debug, Clone, Copy, PartialEq, Eq, Structural)]
pub enum BadgeVariant {
    Default,
    Primary,
    Success,
    Warning,
    Error,
    Info,
}

impl Default for BadgeVariant {
    /// The neutral tone.
    fn default() -> (v: BadgeVariant)
        ensures
            v == BadgeVariant::Default,
    {
        BadgeVariant::Default
    }
}

/// A theme color a badge is drawn with.
#[derive(Debug, Clone, Copy, PartialEq, Eq, Structural)]
pub enum BadgeThemeColor {
    Surface,
    TextSecondary,
    PrimaryBg,
    PrimaryText,
    SuccessBg,
    SuccessText,
    WarningBg,
    WarningText,
    ErrorBg,
    ErrorText,
    InfoBg,
    InfoText,
}

impl BadgeVariant {
    /// Background and text colors: the surface and secondary text for the
    /// neutral tone, the tone's own pair otherwise.
    pub open spec fn colors_spec(self) -> (BadgeThemeColor, BadgeThemeColor) {
        match self {
            BadgeVariant::Default => (BadgeThemeColor::Surface, BadgeThemeColor::TextSecondary),
            BadgeVariant::Primary => (BadgeThemeColor::PrimaryBg, BadgeThemeColor::PrimaryText),
            BadgeVariant::Success => (BadgeThemeColor::SuccessBg, BadgeThemeColor::SuccessText),
            BadgeVariant::Warning => (BadgeThemeColor::WarningBg, BadgeThemeColor::WarningText),
            BadgeVariant::Error => (BadgeThemeColor::ErrorBg, BadgeThemeColor::ErrorText),
            BadgeVariant::Info => (BadgeThemeColor::InfoBg, BadgeThemeColor::InfoText),
        }
    }

    /// Background and text colors of the tone.
    pub fn colors(&self) -> (c: (BadgeThemeColor, BadgeThemeColor))
        ensures
            c == self.colors_spec(),
    {
        match self {
            BadgeVariant::Default => (BadgeThemeColor::Surface, BadgeThemeColor::TextSecondary),
            BadgeVariant::Primary => (BadgeThemeColor::PrimaryBg, BadgeThemeColor::PrimaryText),
            BadgeVariant::Success => (BadgeThemeColor::SuccessBg, BadgeThemeColor::SuccessText),
            BadgeVariant::Warning => (BadgeThemeColor::WarningBg, BadgeThemeColor::WarningText),
            BadgeVariant::Error => (BadgeThemeColor::ErrorBg, BadgeThemeColor::ErrorText),
            BadgeVariant::Info => (BadgeThemeColor::InfoBg, BadgeThemeColor::InfoText),
        }
    }
}

/// The size of a badge.
#[derive(Debug, Clone, Copy, PartialEq, Eq, Structural)]
pub enum BadgeSize {
    Sm,
    Md,
    Lg,
}

impl Default for BadgeSize {
    /// Medium.
    fn default() -> (s: BadgeSize)
        ensures
            s == BadgeSize::Md,
    {
        BadgeSize::Md
    }
}

/// The badge size for a standard size: the two smallest are small, the two
/// largest large.
pub open spec fn badge_size_of(size: ComponentSize) -> BadgeSize {
    match size {
        ComponentSize::Xs | ComponentSize::Sm => BadgeSize::Sm,
        ComponentSize::Md => BadgeSize::Md,
        ComponentSize::Lg | ComponentSize::Xl => BadgeSize::Lg,
    }
}

impl From<ComponentSize> for BadgeSize {
    fn from(size: ComponentSize) -> (s: BadgeSize) {
        match size {
            ComponentSize::Xs | ComponentSize::Sm => BadgeSize::Sm,
            ComponentSize::Md => BadgeSize::Md,
            ComponentSize::Lg | ComponentSize::Xl => BadgeSize::Lg,
        }
    }
}

impl vstd::std_specs::convert::FromSpecImpl<ComponentSize> for BadgeSize {
    open spec fn obeys_from_spec() -> bool {
        true
    }

    open spec fn from_spec(size: ComponentSize) -> BadgeSize {
        badge_size_of(size)
    }
}

/// The text size of a small label.
#[derive(Debug, Clone, Copy, PartialEq, Eq, Structural)]
pub enum LabelTextSize {
    Xs,
    Sm,
}

impl BadgeSize {
    /// Horizontal and vertical padding in pixels: 6x2, 8x3 and 12x4.
    pub fn padding(&self) -> (p: (u32, u32))
        ensures
            p == match *self {
                BadgeSize::Sm => (6u32, 2u32),
                BadgeSize::Md => (8, 3),
                BadgeSize::Lg => (12, 4),
            },
    {
        match self {
            BadgeSize::Sm => (6, 2),
            BadgeSize::Md => (8, 3),
            BadgeSize::Lg => (12, 4),
        }
    }

    /// Text size: extra small but for large badges.
    pub fn text_size(&self) -> (t: LabelTextSize)
        ensures
            t == (if *self == BadgeSize::Lg { LabelTextSize::Sm } else { LabelTextSize::Xs }),
    {
        match self {
            BadgeSize::Lg => LabelTextSize::Sm,
            _ => LabelTextSize::Xs,
        }
    }
}

/// A badge.
pub struct Badge {
    /// Its text.
    pub label: String,
    /// Its tone.
    pub variant: BadgeVariant,
    /// Its size.
    pub size: BadgeSize,
    /// Pill-shaped (fully rounded) rather than slightly rounded.
    pub rounded: bool,
    /// Icon before the text.
    pub icon: Option<String>,
}

impl Badge {
    /// A neutral, medium, slightly rounded badge.
    pub fn new(label: &str) -> (b: Badge)
        ensures
            b.label@ == label@,
            b.variant == BadgeVariant::Default,
            b.size == BadgeSize::Md,
            !b.rounded,
            b.icon is None,
    {
        Badge {
            label: label.to_owned(),
            variant: BadgeVariant::Default,
            size: BadgeSize::Md,
            rounded: false,
            icon: None,
        }
    }

    /// Sets the tone.
    pub fn variant(self, variant: BadgeVariant) -> (b: Badge)
        ensures
            b == (Badge { variant, ..self }),
    {
        Badge { variant, ..self }
    }

    /// Sets the size.
    pub fn size(self, size: BadgeSize) -> (b: Badge)
        ensures
            b == (Badge { size, ..self }),
    {
        Badge { size, ..self }
    }

    /// Sets whether it is pill-shaped.
    pub fn rounded(self, rounded: bool) -> (b: Badge)
        ensures
            b == (Badge { rounded, ..self }),
    {
        Badge { rounded, ..self }
    }

    /// Sets the icon.
    pub fn icon(self, icon: &str) -> (b: Badge)
        ensures
            b.icon matches Some(i) && i@ == icon@,
            b.label == self.label && b.variant == self.variant,
            b.size == self.size && b.rounded == self.rounded,
    {
        Badge { icon: Some(icon.to_owned()), ..self }
    }

    /// Corner radius in pixels: 3, or `None` for a pill.
    pub fn corner_radius(&self) -> (r: Option<u32>)
        ensures
            r == (if self.rounded { None } else { Some(3u32) }),
    {
        if self.rounded {
            None
        } else {
            Some(3)
        }
    }
}

/// A colored dot.
pub struct BadgeDot {
    /// Its tone.
    pub variant: BadgeVariant,
    /// Diameter in pixels.
    pub size: u32,
}

impl BadgeDot {
    /// A neutral dot of 8 pixels.
    pub fn new() -> (d: BadgeDot)
        ensures
            d.variant == BadgeVariant::Default,
            d.size == 8,
    {
        BadgeDot { variant: BadgeVariant::Default, size: 8 }
    }

    /// Sets the tone.
    pub fn variant(self, variant: BadgeVariant) -> (d: BadgeDot)
        ensures
            d.variant == variant,
            d.size == self.size,
    {
        BadgeDot { variant, ..self }
    }

    /// Sets the diameter.
    pub fn size(self, size: u32) -> (d: BadgeDot)
        ensures
            d.size == size,
            d.variant == self.variant,
    {
        BadgeDot { size, ..self }
    }

    /// The dot's color: the background of its tone.
    pub fn color(&self) -> (c: BadgeThemeColor)
        ensures
            c == self.variant.colors_spec().0,
    {
        self.variant.colors().0
    }
}

impl Default for BadgeDot {
    /// A neutral dot of 8 pixels.
    fn default() -> (d: BadgeDot)
        ensures
            d.variant == BadgeVariant::Default,
            d.size == 8,
    {
        BadgeDot::new()
    }
}

/// The tone of a tag.
#[derive(Debug, Clone, Copy, PartialEq, Eq, Structural)]
pub enum TagVariant {
    Default,
    Primary,
    Success,
    Warning,
    Error,
    /// A border and no fill.
    Outlined,
}

impl Default for TagVariant {
    /// The neutral tone.
    fn default() -> (v: TagVariant)
        ensures
            v == TagVariant::Default,
    {
        TagVariant::Default
    }
}

/// The size of a tag.
#[derive(Debug, Clone, Copy, PartialEq, Eq, Structural)]
pub enum TagSize {
    Sm,
    Md,
    Lg,
}

impl Default for TagSize {
    /// Medium.
    fn default() -> (s: TagSize)
        ensures
            s == TagSize::Md,
    {
        TagSize::Md
    }
}

/// A theme color a tag is drawn with.
#[derive(Debug, Clone, Copy, PartialEq, Eq, Structural)]
pub enum TagThemeColor {
    DefaultBg,
    DefaultText,
    PrimaryBg,
    PrimaryText,
    SuccessBg,
    SuccessText,
    WarningBg,
    WarningText,
    ErrorBg,
    ErrorText,
    OutlinedBorder,
}

/// The colors of a tag: fill, text and border.
#[derive(Debug, Clone, Copy, PartialEq, Eq, Structural)]
pub struct TagColors {
    /// Fill, if any.
    pub bg: Option<TagThemeColor>,
    /// Text color.
    pub text: TagThemeColor,
    /// Border, if any.
    pub border: Option<TagThemeColor>,
}

impl TagVariant {
    /// Filled tones use their own fill and text and no border; the outlined
    /// tone has no fill, the default text and the outline border.
    pub fn colors(&self) -> (c: TagColors)
        ensures
            c == match *self {
                TagVariant::Default => TagColors {
                    bg: Some(TagThemeColor::DefaultBg),
                    text: TagThemeColor::DefaultText,
                    border: None,
                },
                TagVariant::Primary => TagColors {
                    bg: Some(TagThemeColor::PrimaryBg),
                    text: TagThemeColor::PrimaryText,
                    border: None,
                },
                TagVariant::Success => TagColors {
                    bg: Some(TagThemeColor::SuccessBg),
                    text: TagThemeColor::SuccessText,
                    border: None,
                },
                TagVariant::Warning => TagColors {
                    bg: Some(TagThemeColor::WarningBg),
                    text: TagThemeColor::WarningText,
                    border: None,
                },
                TagVariant::Error => TagColors {
                    bg: Some(TagThemeColor::ErrorBg),
                    text: TagThemeColor::ErrorText,
                    border: None,
                },
                TagVariant::Outlined => TagColors {
                    bg: None,
                    text: TagThemeColor::DefaultText,
                    border: Some(TagThemeColor::OutlinedBorder),
                },
            },
    {
        match self {
            TagVariant::Default => TagColors {
                bg: Some(TagThemeColor::DefaultBg),
                text: TagThemeColor::DefaultText,
                border: None,
            },
            TagVariant::Primary => TagColors {
                bg: Some(TagThemeColor::PrimaryBg),
                text: TagThemeColor::PrimaryText,
                border: None,
            },
            TagVariant::Success => TagColors {
                bg: Some(TagThemeColor::SuccessBg),
                text: TagThemeColor::SuccessText,
                border: None,
            },
            TagVariant::Warning => TagColors {
                bg: Some(TagThemeColor::WarningBg),
                text: TagThemeColor::WarningText,
                border: None,
            },
            TagVariant::Error => TagColors {
                bg: Some(TagThemeColor::ErrorBg),
                text: TagThemeColor::ErrorText,
                border: None,
            },
            TagVariant::Outlined => TagColors {
                bg: None,
                text: TagThemeColor::DefaultText,
                border: Some(TagThemeColor::OutlinedBorder),
            },
        }
    }
}

/// A tag. The flags record whether click and remove handlers were given.
pub struct Tag {
    /// Identifier of the tag.
    pub id: String,
    /// Its text.
    pub label: String,
    /// Its tone.
    pub variant: TagVariant,
    /// Its size.
    pub size: TagSize,
    /// Icon before the text.
    pub icon: Option<String>,
    /// Whether it has a remove button.
    pub removable: bool,
    /// Whether a click handler was given.
    pub has_on_click: bool,
    /// Whether a remove handler was given.
    pub has_on_remove: bool,
}

impl Tag {
    /// A neutral, medium tag that cannot be removed.
    pub fn new(id: &str, label: &str) -> (t: Tag)
        ensures
            t.id@ == id@,
            t.label@ == label@,
            t.variant == TagVariant::Default,
            t.size == TagSize::Md,
            t.icon is None,
            !t.removable && !t.has_on_click && !t.has_on_remove,
    {
        Tag {
            id: id.to_owned(),
            label: label.to_owned(),
            variant: TagVariant::Default,
            size: TagSize::Md,
            icon: None,
            removable: false,
            has_on_click: false,
            has_on_remove: false,
        }
    }

    /// Sets the tone.
    pub fn variant(self, variant: TagVariant) -> (t: Tag)
        ensures
            t == (Tag { variant, ..self }),
    {
        Tag { variant, ..self }
    }

    /// Sets the size.
    pub fn size(self, size: TagSize) -> (t: Tag)
        ensures
            t == (Tag { size, ..self }),
    {
        Tag { size, ..self }
    }

    /// Sets the icon.
    pub fn icon(self, icon: &str) -> (t: Tag)
        ensures
            t.icon matches Some(i) && i@ == icon@,
            t.id == self.id && t.label == self.label && t.variant == self.variant,
            t.size == self.size && t.removable == self.removable,
            t.has_on_click == self.has_on_click && t.has_on_remove == self.has_on_remove,
    {
        Tag { icon: Some(icon.to_owned()), ..self }
    }

    /// Sets whether it has a remove button.
    pub fn removable(self, removable: bool) -> (t: Tag)
        ensures
            t == (Tag { removable, ..self }),
    {
        Tag { removable, ..self }
    }

    /// Records that a click handler was given.
    pub fn on_click(self) -> (t: Tag)
        ensures
            t == (Tag { has_on_click: true, ..self }),
    {
        Tag { has_on_click: true, ..self }
    }

    /// Records that a remove handler was given.
    pub fn on_remove(self) -> (t: Tag)
        ensures
            t == (Tag { has_on_remove: true, ..self }),
    {
        Tag { has_on_remove: true, ..self }
    }

    /// The remove button is drawn when the tag is removable, and removes it
    /// when a handler was given too: `(drawn, works)`.
    pub fn remove_button(&self) -> (r: (bool, bool))
        ensures
            r == (self.removable, self.removable && self.has_on_remove),
    {
        (self.removable, self.removable && self.has_on_remove)
    }

    /// Text size: extra small but for large tags.
    pub fn text_size(&self) -> (t: LabelTextSize)
        ensures
            t == (if self.size == TagSize::Lg { LabelTextSize::Sm } else { LabelTextSize::Xs }),
    {
        match self.size {
            TagSize::Lg => LabelTextSize::Sm,
            _ => LabelTextSize::Xs,
        }
    }
}

} // verus!
