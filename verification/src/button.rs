//! Buttons: their variants and sizes, which theme colors each one takes, and
//! the spacing and text size each size gets.

use vstd::prelude::*;
use crate::size::ComponentSize;

verus! {

/// The look of a button.
#[derive(Debug, Clone, Copy, PartialEq, Eq, Structural)]
pub enum ButtonVariant {
    /// Filled with the accent color.
    Primary,
    /// Filled with the surface color.
    Secondary,
    /// Filled with the error color, for actions that destroy something.
    Destructive,
    /// No background until hovered.
    Ghosted,
    /// A border and no background.
    Outline,
}

impl Default for ButtonVariant {
    /// The accent-filled look.
    fn default() -> (v: ButtonVariant)
        ensures
            v == ButtonVariant::Primary,
    {
        ButtonVariant::Primary
    }
}

/// The size of a button.
#[derive(Debug, Clone, Copy, PartialEq, Eq, Structural)]
pub enum ButtonSize {
    Xs,
    Sm,
    Md,
    Lg,
}

impl Default for ButtonSize {
    /// Medium.
    fn default() -> (s: ButtonSize)
        ensures
            s == ButtonSize::Md,
    {
        ButtonSize::Md
    }
}

/// The button size for a standard size: extra large buttons are large.
pub open spec fn button_size_of(size: ComponentSize) -> ButtonSize {
    match size {
        ComponentSize::Xs => ButtonSize::Xs,
        ComponentSize::Sm => ButtonSize::Sm,
        ComponentSize::Md => ButtonSize::Md,
        ComponentSize::Lg | ComponentSize::Xl => ButtonSize::Lg,
    }
}

impl From<ComponentSize> for ButtonSize {
    fn from(size: ComponentSize) -> (s: ButtonSize) {
        match size {
            ComponentSize::Xs => ButtonSize::Xs,
            ComponentSize::Sm => ButtonSize::Sm,
            ComponentSize::Md => ButtonSize::Md,
            ComponentSize::Lg | ComponentSize::Xl => ButtonSize::Lg,
        }
    }
}

impl vstd::std_specs::convert::FromSpecImpl<ComponentSize> for ButtonSize {
    open spec fn obeys_from_spec() -> bool {
        true
    }

    open spec fn from_spec(size: ComponentSize) -> ButtonSize {
        button_size_of(size)
    }
}

/// A color of the button theme.
#[derive(Debug, Clone, Copy, PartialEq, Eq, Structural)]
pub enum ButtonThemeColor {
    Accent,
    AccentHover,
    Surface,
    SurfaceHover,
    TextPrimary,
    TextSecondary,
    TextOnAccent,
    Error,
    ErrorHover,
    Border,
    Transparent,
}

/// The theme colors a button is drawn with.
#[derive(Debug, Clone, Copy, PartialEq, Eq, Structural)]
pub struct ButtonColors {
    /// Background.
    pub bg: ButtonThemeColor,
    /// Background under the pointer.
    pub bg_hover: ButtonThemeColor,
    /// Label color.
    pub text: ButtonThemeColor,
    /// Border color.
    pub border: ButtonThemeColor,
}

/// The colors of a button: a selected button looks like a primary one
/// whatever its variant.
pub open spec fn button_colors_spec(variant: ButtonVariant, selected: bool) -> ButtonColors {
    if selected || variant == ButtonVariant::Primary {
        ButtonColors {
            bg: ButtonThemeColor::Accent,
            bg_hover: ButtonThemeColor::AccentHover,
            text: ButtonThemeColor::TextOnAccent,
            border: ButtonThemeColor::Accent,
        }
    } else {
        match variant {
            ButtonVariant::Secondary => ButtonColors {
                bg: ButtonThemeColor::Surface,
                bg_hover: ButtonThemeColor::SurfaceHover,
                text: ButtonThemeColor::TextSecondary,
                border: ButtonThemeColor::Surface,
            },
            ButtonVariant::Destructive => ButtonColors {
                bg: ButtonThemeColor::Error,
                bg_hover: ButtonThemeColor::ErrorHover,
                text: ButtonThemeColor::TextOnAccent,
                border: ButtonThemeColor::Error,
            },
            ButtonVariant::Ghosted => ButtonColors {
                bg: ButtonThemeColor::Transparent,
                bg_hover: ButtonThemeColor::SurfaceHover,
                text: ButtonThemeColor::TextSecondary,
                border: ButtonThemeColor::Transparent,
            },
            _ => ButtonColors {
                bg: ButtonThemeColor::Transparent,
                bg_hover: ButtonThemeColor::Surface,
                text: ButtonThemeColor::TextSecondary,
                border: ButtonThemeColor::Border,
            },
        }
    }
}

/// The theme colors for a variant, selected or not.
pub fn compute_colors(variant: ButtonVariant, selected: bool) -> (c: ButtonColors)
    ensures
        c == button_colors_spec(variant, selected),
{
    if selected {
        return ButtonColors {
            bg: ButtonThemeColor::Accent,
            bg_hover: ButtonThemeColor::AccentHover,
            text: ButtonThemeColor::TextOnAccent,
            border: ButtonThemeColor::Accent,
        };
    }
    match variant {
        ButtonVariant::Primary => ButtonColors {
            bg: ButtonThemeColor::Accent,
            bg_hover: ButtonThemeColor::AccentHover,
            text: ButtonThemeColor::TextOnAccent,
            border: ButtonThemeColor::Accent,
        },
        ButtonVariant::Secondary => ButtonColors {
            bg: ButtonThemeColor::Surface,
            bg_hover: ButtonThemeColor::SurfaceHover,
            text: ButtonThemeColor::TextSecondary,
            border: ButtonThemeColor::Surface,
        },
        ButtonVariant::Destructive => ButtonColors {
            bg: ButtonThemeColor::Error,
            bg_hover: ButtonThemeColor::ErrorHover,
            text: ButtonThemeColor::TextOnAccent,
            border: ButtonThemeColor::Error,
        },
        ButtonVariant::Ghosted => ButtonColors {
            bg: ButtonThemeColor::Transparent,
            bg_hover: ButtonThemeColor::SurfaceHover,
            text: ButtonThemeColor::TextSecondary,
            border: ButtonThemeColor::Transparent,
        },
        ButtonVariant::Outline => ButtonColors {
            bg: ButtonThemeColor::Transparent,
            bg_hover: ButtonThemeColor::Surface,
            text: ButtonThemeColor::TextSecondary,
            border: ButtonThemeColor::Border,
        },
    }
}

/// The text size of a button label.
#[derive(Debug, Clone, Copy, PartialEq, Eq, Structural)]
pub enum ButtonTextSize {
    Xs,
    Sm,
    Lg,
}

impl ButtonSize {
    /// Horizontal and vertical padding in pixels.
    pub open spec fn padding_spec(self) -> (u32, u32) {
        match self {
            ButtonSize::Xs => (6, 2),
            ButtonSize::Sm => (8, 4),
            ButtonSize::Md => (12, 6),
            ButtonSize::Lg => (24, 12),
        }
    }

    /// Horizontal and vertical padding in pixels: 6x2, 8x4, 12x6 and 24x12
    /// from extra small to large.
    pub fn padding(&self) -> (p: (u32, u32))
        ensures
            p == self.padding_spec(),
    {
        match self {
            ButtonSize::Xs => (6, 2),
            ButtonSize::Sm => (8, 4),
            ButtonSize::Md => (12, 6),
            ButtonSize::Lg => (24, 12),
        }
    }

    /// The label's text size: extra small for the two smallest sizes.
    pub fn text_size(&self) -> (t: ButtonTextSize)
        ensures
            t == match *self {
                ButtonSize::Xs | ButtonSize::Sm => ButtonTextSize::Xs,
                ButtonSize::Md => ButtonTextSize::Sm,
                ButtonSize::Lg => ButtonTextSize::Lg,
            },
    {
        match self {
            ButtonSize::Xs | ButtonSize::Sm => ButtonTextSize::Xs,
            ButtonSize::Md => ButtonTextSize::Sm,
            ButtonSize::Lg => ButtonTextSize::Lg,
        }
    }
}

/// A button's settings.
pub struct Button {
    /// Identifier of the button.
    pub id: String,
    /// Its text.
    pub label: String,
    /// Its look.
    pub variant: ButtonVariant,
    /// Its size.
    pub size: ButtonSize,
    /// Whether it ignores clicks.
    pub disabled: bool,
    /// Whether it is drawn as selected.
    pub selected: bool,
    /// Whether it takes the full width available.
    pub full_width: bool,
    /// Icon before the label.
    pub icon_left: Option<String>,
    /// Icon after the label.
    pub icon_right: Option<String>,
}

impl Button {
    /// An enabled, unselected, medium primary button.
    pub fn new(id: &str, label: &str) -> (b: Button)
        ensures
            b.id@ == id@,
            b.label@ == label@,
            b.variant == ButtonVariant::Primary,
            b.size == ButtonSize::Md,
            !b.disabled && !b.selected && !b.full_width,
            b.icon_left is None && b.icon_right is None,
    {
        Button {
            id: id.to_owned(),
            label: label.to_owned(),
            variant: ButtonVariant::Primary,
            size: ButtonSize::Md,
            disabled: false,
            selected: false,
            full_width: false,
            icon_left: None,
            icon_right: None,
        }
    }

    /// Sets the look.
    pub fn variant(self, variant: ButtonVariant) -> (b: Button)
        ensures
            b == (Button { variant, ..self }),
    {
        Button { variant, ..self }
    }

    /// Sets the size.
    pub fn size(self, size: ButtonSize) -> (b: Button)
        ensures
            b == (Button { size, ..self }),
    {
        Button { size, ..self }
    }

    /// Sets whether it ignores clicks.
    pub fn disabled(self, disabled: bool) -> (b: Button)
        ensures
            b == (Button { disabled, ..self }),
    {
        Button { disabled, ..self }
    }

    /// Sets whether it is drawn as selected.
    pub fn selected(self, selected: bool) -> (b: Button)
        ensures
            b == (Button { selected, ..self }),
    {
        Button { selected, ..self }
    }

    /// Sets whether it takes the full width.
    pub fn full_width(self, full_width: bool) -> (b: Button)
        ensures
            b == (Button { full_width, ..self }),
    {
        Button { full_width, ..self }
    }

    /// Sets the icon before the label.
    pub fn icon_left(self, icon: &str) -> (b: Button)
        ensures
            b.icon_left matches Some(i) && i@ == icon@,
            b.id == self.id && b.label == self.label && b.icon_right == self.icon_right,
            b.variant == self.variant && b.size == self.size,
            b.disabled == self.disabled && b.selected == self.selected,
            b.full_width == self.full_width,
    {
        Button { icon_left: Some(icon.to_owned()), ..self }
    }

    /// Sets the icon after the label.
    pub fn icon_right(self, icon: &str) -> (b: Button)
        ensures
            b.icon_right matches Some(i) && i@ == icon@,
            b.id == self.id && b.label == self.label && b.icon_left == self.icon_left,
            b.variant == self.variant && b.size == self.size,
            b.disabled == self.disabled && b.selected == self.selected,
            b.full_width == self.full_width,
    {
        Button { icon_right: Some(icon.to_owned()), ..self }
    }

    /// The theme colors this button is drawn with.
    pub fn colors(&self) -> (c: ButtonColors)
        ensures
            c == button_colors_spec(self.variant, self.selected),
    {
        compute_colors(self.variant, self.selected)
    }

    /// Whether the button reacts to the pointer (hover color and clicks): only
    /// when it is enabled.
    pub fn interactive(&self) -> (r: bool)
        ensures
            r == !self.disabled,
    {
        !self.disabled
    }
}

/// Selecting a button makes it look like a primary button, whatever its
/// variant.
pub proof fn lemma_selected_looks_primary(variant: ButtonVariant)
    ensures
        button_colors_spec(variant, true) == button_colors_spec(ButtonVariant::Primary, false),
{
}

} // verus!
