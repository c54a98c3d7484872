//! Button sets (segmented controls): a row of mutually exclusive options,
//! which one is selected, how each segment is drawn and what a click reports.

use vstd::prelude::*;
use crate::size::ComponentSize;
use crate::text::str_eq;

verus! {

/// The size of a button set.
#[derive(Debug, Clone, Copy, PartialEq, Eq, Structural)]
pub enum ButtonSetSize {
    Xs,
    Sm,
    Md,
    Lg,
}

impl Default for ButtonSetSize {
    /// Medium.
    fn default() -> (s: ButtonSetSize)
        ensures
            s == ButtonSetSize::Md,
    {
        ButtonSetSize::Md
    }
}

/// The button set size for a standard size: extra large sets are large.
pub open spec fn button_set_size_of(size: ComponentSize) -> ButtonSetSize {
    match size {
        ComponentSize::Xs => ButtonSetSize::Xs,
        ComponentSize::Sm => ButtonSetSize::Sm,
        ComponentSize::Md => ButtonSetSize::Md,
        ComponentSize::Lg | ComponentSize::Xl => ButtonSetSize::Lg,
    }
}

impl From<ComponentSize> for ButtonSetSize {
    fn from(size: ComponentSize) -> (s: ButtonSetSize) {
        match size {
            ComponentSize::Xs => ButtonSetSize::Xs,
            ComponentSize::Sm => ButtonSetSize::Sm,
            ComponentSize::Md => ButtonSetSize::Md,
            ComponentSize::Lg | ComponentSize::Xl => ButtonSetSize::Lg,
        }
    }
}

impl vstd::std_specs::convert::FromSpecImpl<ComponentSize> for ButtonSetSize {
    open spec fn obeys_from_spec() -> bool {
        true
    }

    open spec fn from_spec(size: ComponentSize) -> ButtonSetSize {
        button_set_size_of(size)
    }
}

impl ButtonSetSize {
    /// Horizontal and vertical padding of a segment in pixels: 6x2, 8x4,
    /// 12x6 and 16x8 from extra small to large.
    pub fn padding(&self) -> (p: (u32, u32))
        ensures
            p == match *self {
                ButtonSetSize::Xs => (6u32, 2u32),
                ButtonSetSize::Sm => (8, 4),
                ButtonSetSize::Md => (12, 6),
                ButtonSetSize::Lg => (16, 8),
            },
    {
        match self {
            ButtonSetSize::Xs => (6, 2),
            ButtonSetSize::Sm => (8, 4),
            ButtonSetSize::Md => (12, 6),
            ButtonSetSize::Lg => (16, 8),
        }
    }

    /// Corner radius of the set in pixels: 4, 4, 6 and 8; the end segments
    /// are rounded one pixel less, inside the border.
    pub fn border_radius(&self) -> (r: u32)
        ensures
            r == match *self {
                ButtonSetSize::Xs | ButtonSetSize::Sm => 4u32,
                ButtonSetSize::Md => 6,
                ButtonSetSize::Lg => 8,
            },
    {
        match self {
            ButtonSetSize::Xs | ButtonSetSize::Sm => 4,
            ButtonSetSize::Md => 6,
            ButtonSetSize::Lg => 8,
        }
    }
}

/// One option of a button set.
pub struct ButtonSetOption {
    /// The value reported when the option is chosen.
    pub value: String,
    /// Its text.
    pub label: String,
    /// Icon before the text.
    pub icon: Option<String>,
    /// Whether it ignores clicks.
    pub disabled: bool,
}

impl ButtonSetOption {
    /// An enabled option without icon.
    pub fn new(value: &str, label: &str) -> (o: ButtonSetOption)
        ensures
            o.value@ == value@,
            o.label@ == label@,
            o.icon is None,
            !o.disabled,
    {
        ButtonSetOption { value: value.to_owned(), label: label.to_owned(), icon: None, disabled: false }
    }

    /// Sets the icon.
    pub fn icon(self, icon: &str) -> (o: ButtonSetOption)
        ensures
            o.icon matches Some(i) && i@ == icon@,
            o.value == self.value && o.label == self.label && o.disabled == self.disabled,
    {
        ButtonSetOption { icon: Some(icon.to_owned()), ..self }
    }

    /// Sets whether it ignores clicks.
    pub fn disabled(self, disabled: bool) -> (o: ButtonSetOption)
        ensures
            o.disabled == disabled,
            o.value == self.value && o.label == self.label && o.icon == self.icon,
    {
        ButtonSetOption { disabled, ..self }
    }
}

/// A button set.
pub struct ButtonSet {
    /// Identifier of the set.
    pub id: String,
    /// The options, left to right.
    pub options: Vec<ButtonSetOption>,
    /// Value of the selected option.
    pub selected: Option<String>,
    /// Its size.
    pub size: ButtonSetSize,
    /// Whether the whole set ignores clicks.
    pub disabled: bool,
}

/// Which corners of a segment are rounded.
#[derive(Debug, Clone, Copy, PartialEq, Eq, Structural)]
pub enum SegmentCorners {
    /// The only segment: all corners.
    All,
    /// The first segment: the left corners.
    Left,
    /// The last segment: the right corners.
    Right,
    /// A middle segment: none.
    Square,
}

/// How one segment is drawn and behaves.
#[derive(Debug, Clone, Copy, PartialEq, Eq, Structural)]
pub struct SegmentLook {
    /// Whether it is the selected option.
    pub selected: bool,
    /// Whether it ignores clicks.
    pub disabled: bool,
    /// Its rounded corners.
    pub corners: SegmentCorners,
    /// Whether a divider follows it.
    pub divider_after: bool,
    /// Whether it lights up under the pointer.
    pub hover: bool,
}

impl ButtonSet {
    /// An empty, enabled, medium set with nothing selected.
    pub fn new(id: &str) -> (b: ButtonSet)
        ensures
            b.id@ == id@,
            b.options@.len() == 0,
            b.selected is None,
            b.size == ButtonSetSize::Md,
            !b.disabled,
    {
        ButtonSet {
            id: id.to_owned(),
            options: Vec::new(),
            selected: None,
            size: ButtonSetSize::Md,
            disabled: false,
        }
    }

    /// Replaces the options.
    pub fn options(self, options: Vec<ButtonSetOption>) -> (b: ButtonSet)
        ensures
            b.options == options,
            b.id == self.id && b.selected == self.selected,
            b.size == self.size && b.disabled == self.disabled,
    {
        ButtonSet { options, ..self }
    }

    /// Selects the option with the given value.
    pub fn selected(self, value: &str) -> (b: ButtonSet)
        ensures
            b.selected matches Some(v) && v@ == value@,
            b.id == self.id && b.options == self.options,
            b.size == self.size && b.disabled == self.disabled,
    {
        ButtonSet { selected: Some(value.to_owned()), ..self }
    }

    /// Sets the size.
    pub fn size(self, size: ButtonSetSize) -> (b: ButtonSet)
        ensures
            b.size == size,
            b.id == self.id && b.options == self.options,
            b.selected == self.selected && b.disabled == self.disabled,
    {
        ButtonSet { size, ..self }
    }

    /// Sets whether the whole set ignores clicks.
    pub fn disabled(self, disabled: bool) -> (b: ButtonSet)
        ensures
            b.disabled == disabled,
            b.id == self.id && b.options == self.options,
            b.selected == self.selected && b.size == self.size,
    {
        ButtonSet { disabled, ..self }
    }

    /// Whether option `idx` is the selected one.
    pub open spec fn is_selected(&self, idx: int) -> bool {
        self.selected matches Some(v) && v@ == self.options@[idx].value@
    }

    /// Whether option `idx` ignores clicks.
    pub open spec fn is_disabled(&self, idx: int) -> bool {
        self.disabled || self.options@[idx].disabled
    }

    /// How segment `idx` is drawn: selected when its value is the selected
    /// one; disabled when the set or the option is; the ends rounded on
    /// their outer side; a divider after all but the last; lit under the
    /// pointer when enabled and not selected.
    pub fn segment(&self, idx: usize) -> (s: SegmentLook)
        requires
            idx < self.options@.len(),
        ensures
            s.selected == self.is_selected(idx as int),
            s.disabled == self.is_disabled(idx as int),
            s.corners == (if idx == 0 && idx + 1 == self.options@.len() {
                SegmentCorners::All
            } else if idx == 0 {
                SegmentCorners::Left
            } else if idx + 1 == self.options@.len() {
                SegmentCorners::Right
            } else {
                SegmentCorners::Square
            }),
            s.divider_after == (idx + 1 != self.options@.len()),
            s.hover == (!s.disabled && !s.selected),
    {
        let n = self.options.len();
        let first = idx == 0;
        let last = idx == n - 1;
        let selected = match &self.selected {
            Some(v) => str_eq(v.as_str(), self.options[idx].value.as_str()),
            None => false,
        };
        let disabled = self.disabled || self.options[idx].disabled;
        let corners = if first && last {
            SegmentCorners::All
        } else if first {
            SegmentCorners::Left
        } else if last {
            SegmentCorners::Right
        } else {
            SegmentCorners::Square
        };
        SegmentLook { selected, disabled, corners, divider_after: !last, hover: !disabled && !selected }
    }

    /// The value a click on segment `idx` reports; nothing when the segment
    /// is disabled.
    pub fn click(&self, idx: usize) -> (r: Option<&String>)
        requires
            idx < self.options@.len(),
        ensures
            self.is_disabled(idx as int) ==> r is None,
            !self.is_disabled(idx as int) ==> r == Some(&self.options@[idx as int].value),
    {
        if self.disabled || self.options[idx].disabled {
            None
        } else {
            Some(&self.options[idx].value)
        }
    }
}

/// Only one option of a set is selected at a time, as long as the options'
/// values differ.
pub proof fn lemma_one_selected(b: ButtonSet, i: int, j: int)
    requires
        0 <= i < b.options@.len(),
        0 <= j < b.options@.len(),
        i != j,
        b.options@[i].value@ != b.options@[j].value@,
    ensures
        !(b.is_selected(i) && b.is_selected(j)),
{
}

} // verus!
