//! Icon buttons: their sizes, variants and the theme colors each state
//! takes.

use vstd::prelude::*;
use crate::size::ComponentSize;

verus! {

/// The size of an icon button.
#[derive(Debug, Clone, Copy, PartialEq, Eq, Structural)]
pub enum IconButtonSize {
    Xs,
    Sm,
    Md,
    Lg,
    Xl,
    /// A side of this many pixels.
    Custom(u32),
}

impl Default for IconButtonSize {
    /// Medium.
    fn default() -> (s: IconButtonSize)
        ensures
            s == IconButtonSize::Md,
    {
        IconButtonSize::Md
    }
}

impl IconButtonSize {
    /// Side in pixels: 16, 20, 24, 32 and 48 from extra small to extra
    /// large, or the custom side.
    pub fn size(&self) -> (px: u32)
        ensures
            px == match *self {
                IconButtonSize::Xs => 16u32,
                IconButtonSize::Sm => 20,
                IconButtonSize::Md => 24,
                IconButtonSize::Lg => 32,
                IconButtonSize::Xl => 48,
                IconButtonSize::Custom(s) => s,
            },
    {
        match self {
            IconButtonSize::Xs => 16,
            IconButtonSize::Sm => 20,
            IconButtonSize::Md => 24,
            IconButtonSize::Lg => 32,
            IconButtonSize::Xl => 48,
            IconButtonSize::Custom(s) => *s,
        }
    }
}

/// The icon button size for a standard size.
pub open spec fn icon_button_size_of(size: ComponentSize) -> IconButtonSize {
    match size {
        ComponentSize::Xs => IconButtonSize::Xs,
        ComponentSize::Sm => IconButtonSize::Sm,
        ComponentSize::Md => IconButtonSize::Md,
        ComponentSize::Lg => IconButtonSize::Lg,
        ComponentSize::Xl => IconButtonSize::Xl,
    }
}

impl From<ComponentSize> for IconButtonSize {
    fn from(size: ComponentSize) -> (s: IconButtonSize) {
        match size {
            ComponentSize::Xs => IconButtonSize::Xs,
            ComponentSize::Sm => IconButtonSize::Sm,
            ComponentSize::Md => IconButtonSize::Md,
            ComponentSize::Lg => IconButtonSize::Lg,
            ComponentSize::Xl => IconButtonSize::Xl,
        }
    }
}

impl vstd::std_specs::convert::FromSpecImpl<ComponentSize> for IconButtonSize {
    open spec fn obeys_from_spec() -> bool {
        true
    }

    open spec fn from_spec(size: ComponentSize) -> IconButtonSize {
        icon_button_size_of(size)
    }
}

/// The look of an icon button.
#[derive(Debug, Clone, Copy, PartialEq, Eq, Structural)]
pub enum IconButtonVariant {
    /// No background until hovered.
    Ghosted,
    /// A filled background.
    Filled,
    /// A border and no background.
    Outline,
}

impl Default for IconButtonVariant {
    /// No background until hovered.
    fn default() -> (v: IconButtonVariant)
        ensures
            v == IconButtonVariant::Ghosted,
    {
        IconButtonVariant::Ghosted
    }
}

/// A color of the icon button theme.
#[derive(Debug, Clone, Copy, PartialEq, Eq, Structural)]
pub enum IconButtonThemeColor {
    GhostBg,
    GhostHoverBg,
    FilledBg,
    FilledHoverBg,
    SelectedBg,
    SelectedHoverBg,
    Accent,
    AccentHover,
    Text,
    TextOnAccent,
    Border,
}

/// The theme colors an icon button is drawn with.
#[derive(Debug, Clone, Copy, PartialEq, Eq, Structural)]
pub struct IconButtonColors {
    /// Background.
    pub bg: IconButtonThemeColor,
    /// Background under the pointer.
    pub bg_hover: IconButtonThemeColor,
    /// Icon color.
    pub text: IconButtonThemeColor,
    /// Border, if any.
    pub border: Option<IconButtonThemeColor>,
}

/// The colors for a variant, selected or not: selected ghost and outline
/// buttons take the selection colors and filled ones the accent; only
/// outline buttons have a border, the accent when selected.
pub open spec fn icon_button_colors_spec(variant: IconButtonVariant, selected: bool) -> IconButtonColors {
    match variant {
        IconButtonVariant::Ghosted => if selected {
            IconButtonColors {
                bg: IconButtonThemeColor::SelectedBg,
                bg_hover: IconButtonThemeColor::SelectedHoverBg,
                text: IconButtonThemeColor::TextOnAccent,
                border: None,
            }
        } else {
            IconButtonColors {
                bg: IconButtonThemeColor::GhostBg,
                bg_hover: IconButtonThemeColor::GhostHoverBg,
                text: IconButtonThemeColor::Text,
                border: None,
            }
        },
        IconButtonVariant::Filled => if selected {
            IconButtonColors {
                bg: IconButtonThemeColor::Accent,
                bg_hover: IconButtonThemeColor::AccentHover,
                text: IconButtonThemeColor::TextOnAccent,
                border: None,
            }
        } else {
            IconButtonColors {
                bg: IconButtonThemeColor::FilledBg,
                bg_hover: IconButtonThemeColor::FilledHoverBg,
                text: IconButtonThemeColor::Text,
                border: None,
            }
        },
        IconButtonVariant::Outline => if selected {
            IconButtonColors {
                bg: IconButtonThemeColor::SelectedBg,
                bg_hover: IconButtonThemeColor::SelectedHoverBg,
                text: IconButtonThemeColor::TextOnAccent,
                border: Some(IconButtonThemeColor::Accent),
            }
        } else {
            IconButtonColors {
                bg: IconButtonThemeColor::GhostBg,
                bg_hover: IconButtonThemeColor::GhostHoverBg,
                text: IconButtonThemeColor::Text,
                border: Some(IconButtonThemeColor::Border),
            }
        },
    }
}

/// A button showing an icon. `has_on_click` records whether a click handler
/// was given.
pub struct IconButton {
    /// Identifier of the button.
    pub id: String,
    /// The icon text, or `None` when the button holds another element.
    pub icon: Option<String>,
    /// Its size.
    pub size: IconButtonSize,
    /// Its look.
    pub variant: IconButtonVariant,
    /// Whether it ignores clicks.
    pub disabled: bool,
    /// Whether it is drawn as selected.
    pub selected: bool,
    /// Whether it is a circle rather than a rounded square.
    pub rounded_full: bool,
    /// Whether a click handler was given.
    pub has_on_click: bool,
}

impl IconButton {
    /// A medium ghost button showing `icon`.
    pub fn new(id: &str, icon: &str) -> (b: IconButton)
        ensures
            b.id@ == id@,
            b.icon matches Some(i) && i@ == icon@,
            b.size == IconButtonSize::Md,
            b.variant == IconButtonVariant::Ghosted,
            !b.disabled && !b.selected && !b.rounded_full && !b.has_on_click,
    {
        IconButton {
            id: id.to_owned(),
            icon: Some(icon.to_owned()),
            size: IconButtonSize::Md,
            variant: IconButtonVariant::Ghosted,
            disabled: false,
            selected: false,
            rounded_full: false,
            has_on_click: false,
        }
    }

    /// A medium ghost button holding another element in place of an icon.
    pub fn with_child(id: &str) -> (b: IconButton)
        ensures
            b.id@ == id@,
            b.icon is None,
            b.size == IconButtonSize::Md,
            b.variant == IconButtonVariant::Ghosted,
            !b.disabled && !b.selected && !b.rounded_full && !b.has_on_click,
    {
        IconButton {
            id: id.to_owned(),
            icon: None,
            size: IconButtonSize::Md,
            variant: IconButtonVariant::Ghosted,
            disabled: false,
            selected: false,
            rounded_full: false,
            has_on_click: false,
        }
    }

    /// Sets the size.
    pub fn size(self, size: IconButtonSize) -> (b: IconButton)
        ensures
            b == (IconButton { size, ..self }),
    {
        IconButton { size, ..self }
    }

    /// Sets the look.
    pub fn variant(self, variant: IconButtonVariant) -> (b: IconButton)
        ensures
            b == (IconButton { variant, ..self }),
    {
        IconButton { variant, ..self }
    }

    /// Sets whether it ignores clicks.
    pub fn disabled(self, disabled: bool) -> (b: IconButton)
        ensures
            b == (IconButton { disabled, ..self }),
    {
        IconButton { disabled, ..self }
    }

    /// Sets whether it is drawn as selected.
    pub fn selected(self, selected: bool) -> (b: IconButton)
        ensures
            b == (IconButton { selected, ..self }),
    {
        IconButton { selected, ..self }
    }

    /// Makes it a circle.
    pub fn rounded_full(self) -> (b: IconButton)
        ensures
            b == (IconButton { rounded_full: true, ..self }),
    {
        IconButton { rounded_full: true, ..self }
    }

    /// Records that a click handler was given.
    pub fn on_click(self) -> (b: IconButton)
        ensures
            b == (IconButton { has_on_click: true, ..self }),
    {
        IconButton { has_on_click: true, ..self }
    }

    /// The theme colors this button is drawn with.
    pub fn compute_colors(&self) -> (c: IconButtonColors)
        ensures
            c == icon_button_colors_spec(self.variant, self.selected),
    {
        match self.variant {
            IconButtonVariant::Ghosted => if self.selected {
                IconButtonColors {
                    bg: IconButtonThemeColor::SelectedBg,
                    bg_hover: IconButtonThemeColor::SelectedHoverBg,
                    text: IconButtonThemeColor::TextOnAccent,
                    border: None,
                }
            } else {
                IconButtonColors {
                    bg: IconButtonThemeColor::GhostBg,
                    bg_hover: IconButtonThemeColor::GhostHoverBg,
                    text: IconButtonThemeColor::Text,
                    border: None,
                }
            },
            IconButtonVariant::Filled => if self.selected {
                IconButtonColors {
                    bg: IconButtonThemeColor::Accent,
                    bg_hover: IconButtonThemeColor::AccentHover,
                    text: IconButtonThemeColor::TextOnAccent,
                    border: None,
                }
            } else {
                IconButtonColors {
                    bg: IconButtonThemeColor::FilledBg,
                    bg_hover: IconButtonThemeColor::FilledHoverBg,
                    text: IconButtonThemeColor::Text,
                    border: None,
                }
            },
            IconButtonVariant::Outline => if self.selected {
                IconButtonColors {
                    bg: IconButtonThemeColor::SelectedBg,
                    bg_hover: IconButtonThemeColor::SelectedHoverBg,
                    text: IconButtonThemeColor::TextOnAccent,
                    border: Some(IconButtonThemeColor::Accent),
                }
            } else {
                IconButtonColors {
                    bg: IconButtonThemeColor::GhostBg,
                    bg_hover: IconButtonThemeColor::GhostHoverBg,
                    text: IconButtonThemeColor::Text,
                    border: Some(IconButtonThemeColor::Border),
                }
            },
        }
    }

    /// Whether a click does something: the button is enabled and has a
    /// handler.
    pub fn clickable(&self) -> (r: bool)
        ensures
            r == (!self.disabled && self.has_on_click),
    {
        !self.disabled && self.has_on_click
    }
}

} // verus!
