//! Check boxes: their state and the keys that flip them.

use vstd::prelude::*;
use crate::text::str_eq;
use crate::size::ComponentSize;

verus! {

/// The size of a check box.
#[derive(Debug, Clone, Copy, PartialEq, Eq, Structural)]
pub enum CheckboxSize {
    Sm,
    Md,
    Lg,
}

impl Default for CheckboxSize {
    /// Medium.
    fn default() -> (s: CheckboxSize)
        ensures
            s == CheckboxSize::Md,
    {
        CheckboxSize::Md
    }
}

impl CheckboxSize {
    /// Side of the box in pixels: 14, 18 or 22.
    pub fn size(&self) -> (px: u32)
        ensures
            px == match *self {
                CheckboxSize::Sm => 14u32,
                CheckboxSize::Md => 18,
                CheckboxSize::Lg => 22,
            },
    {
        match self {
            CheckboxSize::Sm => 14,
            CheckboxSize::Md => 18,
            CheckboxSize::Lg => 22,
        }
    }
}

/// The check box size for a standard size: extra small and small are small,
/// large and extra large are large.
pub open spec fn checkbox_size_of(size: ComponentSize) -> CheckboxSize {
    match size {
        ComponentSize::Xs | ComponentSize::Sm => CheckboxSize::Sm,
        ComponentSize::Md => CheckboxSize::Md,
        ComponentSize::Lg | ComponentSize::Xl => CheckboxSize::Lg,
    }
}

impl From<ComponentSize> for CheckboxSize {
    fn from(size: ComponentSize) -> (s: CheckboxSize) {
        match size {
            ComponentSize::Xs | ComponentSize::Sm => CheckboxSize::Sm,
            ComponentSize::Md => CheckboxSize::Md,
            ComponentSize::Lg | ComponentSize::Xl => CheckboxSize::Lg,
        }
    }
}

impl vstd::std_specs::convert::FromSpecImpl<ComponentSize> for CheckboxSize {
    open spec fn obeys_from_spec() -> bool {
        true
    }

    open spec fn from_spec(size: ComponentSize) -> CheckboxSize {
        checkbox_size_of(size)
    }
}

/// State of a check box.
pub struct Checkbox {
    /// Identifier of the check box.
    pub id: String,
    /// Whether it is ticked.
    pub checked: bool,
    /// Whether it shows the "partly" dash instead of a tick.
    pub indeterminate: bool,
    /// Text beside the box.
    pub label: Option<String>,
    /// Its size.
    pub size: CheckboxSize,
    /// Whether it ignores input.
    pub disabled: bool,
}

/// What the box shows: the dash when indeterminate, else a tick when checked.
#[derive(Debug, Clone, Copy, PartialEq, Eq, Structural)]
pub enum CheckMark {
    Dash,
    Tick,
    Empty,
}

impl Checkbox {
    /// An unticked, enabled, medium check box.
    pub fn new(id: &str) -> (c: Checkbox)
        ensures
            c.id@ == id@,
            !c.checked && !c.indeterminate && !c.disabled,
            c.label is None,
            c.size == CheckboxSize::Md,
    {
        Checkbox {
            id: id.to_owned(),
            checked: false,
            indeterminate: false,
            label: None,
            size: CheckboxSize::Md,
            disabled: false,
        }
    }

    /// Ticks or unticks it.
    pub fn checked(self, checked: bool) -> (c: Checkbox)
        ensures
            c == (Checkbox { checked, ..self }),
    {
        Checkbox { checked, ..self }
    }

    /// Shows the dash or not.
    pub fn indeterminate(self, indeterminate: bool) -> (c: Checkbox)
        ensures
            c == (Checkbox { indeterminate, ..self }),
    {
        Checkbox { indeterminate, ..self }
    }

    /// Sets the text beside the box.
    pub fn label(self, label: &str) -> (c: Checkbox)
        ensures
            c.label matches Some(l) && l@ == label@,
            c.id == self.id && c.checked == self.checked,
            c.indeterminate == self.indeterminate,
            c.size == self.size && c.disabled == self.disabled,
    {
        Checkbox { label: Some(label.to_owned()), ..self }
    }

    /// Sets the size.
    pub fn size(self, size: CheckboxSize) -> (c: Checkbox)
        ensures
            c == (Checkbox { size, ..self }),
    {
        Checkbox { size, ..self }
    }

    /// Enables or disables it.
    pub fn disabled(self, disabled: bool) -> (c: Checkbox)
        ensures
            c == (Checkbox { disabled, ..self }),
    {
        Checkbox { disabled, ..self }
    }

    /// What the box shows.
    pub fn mark(&self) -> (m: CheckMark)
        ensures
            m == if self.indeterminate {
                CheckMark::Dash
            } else if self.checked {
                CheckMark::Tick
            } else {
                CheckMark::Empty
            },
    {
        if self.indeterminate {
            CheckMark::Dash
        } else if self.checked {
            CheckMark::Tick
        } else {
            CheckMark::Empty
        }
    }

    /// The state a click reports: the opposite of `checked`; a disabled box
    /// reports nothing.
    pub fn click(&self) -> (r: Option<bool>)
        ensures
            r == if self.disabled {
                None
            } else {
                Some(!self.checked)
            },
    {
        if self.disabled {
            None
        } else {
            Some(!self.checked)
        }
    }

    /// The state a key press reports: space (also spelled ` `) and enter
    /// flip the box like a click; other keys, or a disabled box, report nothing.
    pub fn key_press(&self, key: &str) -> (r: Option<bool>)
        ensures
            r == if !self.disabled && (key@ == "space"@ || key@ == " "@ || key@ == "enter"@) {
                Some(!self.checked)
            } else {
                None
            },
    {
        if !self.disabled && (str_eq(key, "space") || str_eq(key, " ") || str_eq(key, "enter")) {
            Some(!self.checked)
        } else {
            None
        }
    }
}

} // verus!
