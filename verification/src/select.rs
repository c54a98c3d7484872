//! A dropdown select: its options, the shown value and keyboard handling.

use vstd::prelude::*;
use crate::text::str_eq;
use crate::size::ComponentSize;

verus! {

/// Sizes of a select.
#[derive(Debug, Clone, Copy, PartialEq, Eq, Structural)]
pub enum SelectSize {
    Xs,
    Sm,
    Md,
    Lg,
}

impl Default for SelectSize {
    /// Medium.
    fn default() -> (s: SelectSize)
        ensures
            s == SelectSize::Md,
    {
        SelectSize::Md
    }
}

/// The select size for a standard size: extra large becomes large.
pub open spec fn select_size_of(size: ComponentSize) -> SelectSize {
    match size {
        ComponentSize::Xs => SelectSize::Xs,
        ComponentSize::Sm => SelectSize::Sm,
        ComponentSize::Md => SelectSize::Md,
        ComponentSize::Lg | ComponentSize::Xl => SelectSize::Lg,
    }
}

impl From<ComponentSize> for SelectSize {
    fn from(size: ComponentSize) -> (s: SelectSize) {
        match size {
            ComponentSize::Xs => SelectSize::Xs,
            ComponentSize::Sm => SelectSize::Sm,
            ComponentSize::Md => SelectSize::Md,
            ComponentSize::Lg | ComponentSize::Xl => SelectSize::Lg,
        }
    }
}

impl vstd::std_specs::convert::FromSpecImpl<ComponentSize> for SelectSize {
    open spec fn obeys_from_spec() -> bool {
        true
    }

    open spec fn from_spec(size: ComponentSize) -> SelectSize {
        select_size_of(size)
    }
}

/// One choice of a select.
#[derive(Clone)]
pub struct SelectOption {
    /// The value reported when the option is chosen.
    pub value: String,
    /// Text shown for the option.
    pub label: String,
    /// Whether the option cannot be chosen.
    pub disabled: bool,
}

impl SelectOption {
    /// An enabled option.
    pub fn new(value: &str, label: &str) -> (o: SelectOption)
        ensures
            o.value@ == value@,
            o.label@ == label@,
            !o.disabled,
    {
        SelectOption { value: value.to_owned(), label: label.to_owned(), disabled: false }
    }

    /// Enables or disables the option.
    pub fn disabled(self, disabled: bool) -> (o: SelectOption)
        ensures
            o.value == self.value,
            o.label == self.label,
            o.disabled == disabled,
    {
        SelectOption { value: self.value, label: self.label, disabled }
    }
}

/// State of a select: options, chosen value, whether its list is open and
/// which option the keyboard highlights.
pub struct Select {
    /// Identifier of the select.
    pub id: String,
    /// The choices.
    pub options: Vec<SelectOption>,
    /// The chosen value.
    pub selected: Option<String>,
    /// Text shown while nothing is chosen.
    pub placeholder: Option<String>,
    /// Caption above the select.
    pub label: Option<String>,
    /// Size.
    pub size: SelectSize,
    /// Whether the select ignores input.
    pub disabled: bool,
    /// Whether the list of options is shown.
    pub is_open: bool,
    /// Option highlighted by the keyboard.
    pub highlighted_index: Option<usize>,
}

/// The first option whose value is `value`.
pub open spec fn first_with_value(options: Seq<SelectOption>, value: Seq<char>, from: int) -> Option<int>
    decreases options.len() - from,
{
    if from < 0 || from >= options.len() {
        None
    } else if options[from].value@ == value {
        Some(from)
    } else {
        first_with_value(options, value, from + 1)
    }
}

/// The text the closed select shows: the chosen option's label, else the
/// placeholder, else `Select...`.
pub open spec fn display_text_spec(s: &Select) -> Seq<char> {
    let found = match s.selected {
        Some(v) => first_with_value(s.options@, v@, 0),
        None => None,
    };
    match found {
        Some(i) => s.options@[i].label@,
        None => match s.placeholder {
            Some(p) => p@,
            None => "Select..."@,
        },
    }
}

/// What a key press asks of a select.
pub struct SelectKeyAction {
    /// The key was handled (and should not propagate).
    pub handled: bool,
    /// Open (`true`) or close (`false`) the list.
    pub toggle: Option<bool>,
    /// The value newly chosen.
    pub change: Option<String>,
    /// The option to highlight next.
    pub highlight: Option<Option<usize>>,
}

/// The keys a select reacts to.
#[derive(Debug, Clone, Copy, PartialEq, Eq, Structural)]
pub enum SelectKey {
    Space,
    Escape,
    Enter,
    Down,
    Up,
    Other,
}

/// Space (spelled `space` or ` `), escape, enter, down, up, anything else.
pub open spec fn select_key_spec(key: Seq<char>) -> SelectKey {
    if key == "space"@ || key == " "@ {
        SelectKey::Space
    } else if key == "escape"@ {
        SelectKey::Escape
    } else if key == "enter"@ {
        SelectKey::Enter
    } else if key == "down"@ {
        SelectKey::Down
    } else if key == "up"@ {
        SelectKey::Up
    } else {
        SelectKey::Other
    }
}

/// Which select key `key` names.
pub fn select_key(key: &str) -> (k: SelectKey)
    ensures
        k == select_key_spec(key@),
{
    if str_eq(key, "space") || str_eq(key, " ") {
        SelectKey::Space
    } else if str_eq(key, "escape") {
        SelectKey::Escape
    } else if str_eq(key, "enter") {
        SelectKey::Enter
    } else if str_eq(key, "down") {
        SelectKey::Down
    } else if str_eq(key, "up") {
        SelectKey::Up
    } else {
        SelectKey::Other
    }
}

/// The highlight after moving by `delta` (1 down, -1 up) in a list of `n`
/// options, wrapping at both ends; the index is taken as an `i32` as the
/// widget does.
pub open spec fn moved_highlight(current: Option<usize>, delta: int, n: usize) -> usize {
    match current {
        Some(idx) => {
            let new = (idx as i32) as int + delta;
            if new < 0 {
                if n > 0 { (n - 1) as usize } else { 0 }
            } else if new >= (n as i32) as int {
                0
            } else {
                new as usize
            }
        },
        None => if delta > 0 {
            0
        } else if n > 0 {
            (n - 1) as usize
        } else {
            0
        },
    }
}

impl Select {
    /// A closed, enabled select without options.
    pub fn new(id: &str) -> (s: Select)
        ensures
            s.id@ == id@,
            s.options@.len() == 0,
            s.selected is None && s.placeholder is None && s.label is None,
            s.size == SelectSize::Md,
            !s.disabled && !s.is_open,
            s.highlighted_index is None,
    {
        Select {
            id: id.to_owned(),
            options: Vec::new(),
            selected: None,
            placeholder: None,
            label: None,
            size: SelectSize::Md,
            disabled: false,
            is_open: false,
            highlighted_index: None,
        }
    }

    /// Sets the options.
    pub fn options(self, options: Vec<SelectOption>) -> (s: Select)
        ensures
            s == (Select { options, ..self }),
    {
        Select { options, ..self }
    }

    /// Sets the chosen value.
    pub fn selected(self, value: &str) -> (s: Select)
        ensures
            s.selected matches Some(v) && v@ == value@,
            s.options == self.options && s.placeholder == self.placeholder,
            s.is_open == self.is_open && s.highlighted_index == self.highlighted_index,
            s.disabled == self.disabled,
    {
        Select { selected: Some(value.to_owned()), ..self }
    }

    /// Sets the placeholder.
    pub fn placeholder(self, placeholder: &str) -> (s: Select)
        ensures
            s.placeholder matches Some(p) && p@ == placeholder@,
            s.options == self.options && s.selected == self.selected,
            s.is_open == self.is_open && s.highlighted_index == self.highlighted_index,
            s.disabled == self.disabled,
    {
        Select { placeholder: Some(placeholder.to_owned()), ..self }
    }

    /// Sets the caption.
    pub fn label(self, label: &str) -> (s: Select)
        ensures
            s.label matches Some(l) && l@ == label@,
            s.options == self.options && s.selected == self.selected,
            s.placeholder == self.placeholder,
            s.is_open == self.is_open && s.highlighted_index == self.highlighted_index,
            s.disabled == self.disabled,
    {
        Select { label: Some(label.to_owned()), ..self }
    }

    /// Sets the size.
    pub fn size(self, size: SelectSize) -> (s: Select)
        ensures
            s == (Select { size, ..self }),
    {
        Select { size, ..self }
    }

    /// Enables or disables the select.
    pub fn disabled(self, disabled: bool) -> (s: Select)
        ensures
            s == (Select { disabled, ..self }),
    {
        Select { disabled, ..self }
    }

    /// Opens or closes the list.
    pub fn is_open(self, is_open: bool) -> (s: Select)
        ensures
            s == (Select { is_open, ..self }),
    {
        Select { is_open, ..self }
    }

    /// Sets the highlighted option.
    pub fn highlighted_index(self, index: Option<usize>) -> (s: Select)
        ensures
            s == (Select { highlighted_index: index, ..self }),
    {
        Select { highlighted_index: index, ..self }
    }

    /// The label of the first option whose value is the chosen one.
    pub fn selected_label(&self) -> (l: Option<String>)
        ensures
            match (self.selected, l) {
                (Some(v), Some(l)) => first_with_value(self.options@, v@, 0) is Some && l@
                    == self.options@[first_with_value(self.options@, v@, 0)->0].label@,
                (Some(v), None) => first_with_value(self.options@, v@, 0) is None,
                (None, None) => true,
                (None, Some(_)) => false,
            },
    {
        match &self.selected {
            None => None,
            Some(v) => {
                let mut i: usize = 0;
                while i < self.options.len()
                    invariant
                        i <= self.options@.len(),
                        self.selected == Some(*v),
                        first_with_value(self.options@, v@, 0) == first_with_value(
                            self.options@,
                            v@,
                            i as int,
                        ),
                    decreases self.options@.len() - i,
                {
                    if str_eq(self.options[i].value.as_str(), v.as_str()) {
                        assert(first_with_value(self.options@, v@, i as int) == Some(i as int));
                        let l = self.options[i].label.clone();
                        assert(l@ == self.options@[i as int].label@);
                        return Some(l);
                    }
                    i = i + 1;
                }
                None
            },
        }
    }

    /// The text the closed select shows.
    pub fn display_text(&self) -> (t: String)
        ensures
            t@ == display_text_spec(self),
    {
        match self.selected_label() {
            Some(l) => l,
            None => match &self.placeholder {
                Some(p) => p.clone(),
                None => "Select...".to_owned(),
            },
        }
    }

    /// What a key press on the focused select asks for. Space toggles the
    /// list; while it is open, escape closes it, enter chooses the highlighted
    /// option (when it exists and is enabled) and closes the list, and down
    /// or up move the highlight with wrap-around. Other keys are not handled.
    pub fn key_action(&self, key: &str) -> (a: SelectKeyAction)
        requires
            select_key_spec(key@) == SelectKey::Down && self.is_open ==> (self.highlighted_index
                matches Some(i) ==> (i as i32) < i32::MAX),
            select_key_spec(key@) == SelectKey::Up && self.is_open ==> (self.highlighted_index
                matches Some(i) ==> (i as i32) > i32::MIN),
        ensures
            self.disabled ==> !a.handled && a.toggle is None && a.change is None && a.highlight is None,
            !self.disabled ==> ({
                let k = select_key_spec(key@);
                let open = self.is_open;
                let n = self.options@.len();
                &&& a.handled == (k == SelectKey::Space || (open && k != SelectKey::Other))
                &&& a.toggle == if k == SelectKey::Space {
                    Some(!open)
                } else if open && k == SelectKey::Escape {
                    Some(false)
                } else if open && k == SelectKey::Enter && (self.highlighted_index matches Some(
                    i,
                ) && i < n && !self.options@[i as int].disabled) {
                    Some(false)
                } else {
                    None
                }
                &&& match a.change {
                    Some(v) => open && k == SelectKey::Enter && (self.highlighted_index matches Some(
                        i,
                    ) && i < n && !self.options@[i as int].disabled && v@ == self.options@[i as int].value@),
                    None => !(open && k == SelectKey::Enter && (self.highlighted_index matches Some(
                        i,
                    ) && i < n && !self.options@[i as int].disabled)),
                }
                &&& a.highlight == if open && k == SelectKey::Down {
                    Some(Some(moved_highlight(self.highlighted_index, 1, n as usize)))
                } else if open && k == SelectKey::Up {
                    Some(Some(moved_highlight(self.highlighted_index, -1, n as usize)))
                } else {
                    None
                }
            }),
    {
        let nothing = SelectKeyAction { handled: false, toggle: None, change: None, highlight: None };
        if self.disabled {
            return nothing;
        }
        let k = select_key(key);
        let open = self.is_open;
        let n = self.options.len();
        match k {
            SelectKey::Space => SelectKeyAction { handled: true, toggle: Some(!open), change: None, highlight: None },
            SelectKey::Escape => {
                if open {
                    SelectKeyAction { handled: true, toggle: Some(false), change: None, highlight: None }
                } else {
                    nothing
                }
            },
            SelectKey::Enter => {
                if open {
                    match self.highlighted_index {
                        Some(i) => {
                            if i < n && !self.options[i].disabled {
                                SelectKeyAction {
                                    handled: true,
                                    toggle: Some(false),
                                    change: Some(self.options[i].value.clone()),
                                    highlight: None,
                                }
                            } else {
                                SelectKeyAction { handled: true, toggle: None, change: None, highlight: None }
                            }
                        },
                        None => SelectKeyAction { handled: true, toggle: None, change: None, highlight: None },
                    }
                } else {
                    nothing
                }
            },
            SelectKey::Down | SelectKey::Up => {
                if open {
                    let delta: i32 = if k == SelectKey::Down { 1 } else { -1 };
                    let new_idx = match self.highlighted_index {
                        Some(idx) => {
                            let new = (idx as i32) + delta;
                            if new < 0 {
                                if n > 0 { n - 1 } else { 0 }
                            } else if new >= (n as i32) {
                                0
                            } else {
                                new as usize
                            }
                        },
                        None => {
                            if delta > 0 {
                                0
                            } else if n > 0 {
                                n - 1
                            } else {
                                0
                            }
                        },
                    };
                    SelectKeyAction { handled: true, toggle: None, change: None, highlight: Some(Some(new_idx)) }
                } else {
                    nothing
                }
            },
            SelectKey::Other => nothing,
        }
    }

    /// The list's state a click on the trigger asks for: it flips open or
    /// closed; a disabled select ignores the click.
    pub fn click_toggle(&self) -> (open: Option<bool>)
        ensures
            open == (if self.disabled { None } else { Some(!self.is_open) }),
    {
        if self.disabled {
            None
        } else {
            Some(!self.is_open)
        }
    }

    /// What a click on option `idx` of the open list asks for: choosing its
    /// value and closing the list; a disabled option ignores the click.
    pub fn option_click(&self, idx: usize) -> (r: Option<String>)
        requires
            idx < self.options@.len(),
        ensures
            self.options@[idx as int].disabled ==> r is None,
            !self.options@[idx as int].disabled ==> (r matches Some(v) && v@
                == self.options@[idx as int].value@),
    {
        if self.options[idx].disabled {
            None
        } else {
            Some(self.options[idx].value.clone())
        }
    }

    /// How option `idx` of the open list is drawn: disabled options greyed,
    /// else the chosen one marked, else the highlighted one lit.
    pub fn option_look(&self, idx: usize) -> (l: OptionLook)
        requires
            idx < self.options@.len(),
        ensures
            l == (if self.options@[idx as int].disabled {
                OptionLook::Disabled
            } else if self.selected matches Some(v) && v@ == self.options@[idx as int].value@ {
                OptionLook::Selected
            } else if self.highlighted_index == Some(idx) {
                OptionLook::Highlighted
            } else {
                OptionLook::Plain
            }),
    {
        if self.options[idx].disabled {
            OptionLook::Disabled
        } else {
            let chosen = match &self.selected {
                Some(v) => str_eq(v.as_str(), self.options[idx].value.as_str()),
                None => false,
            };
            if chosen {
                OptionLook::Selected
            } else if self.highlighted_index == Some(idx) {
                OptionLook::Highlighted
            } else {
                OptionLook::Plain
            }
        }
    }
}

/// How an option of the open list is drawn.
#[derive(Debug, Clone, Copy, PartialEq, Eq, Structural)]
pub enum OptionLook {
    /// Greyed out and not clickable.
    Disabled,
    /// The chosen value.
    Selected,
    /// Highlighted by the keyboard.
    Highlighted,
    /// Neither.
    Plain,
}

/// Law: with the list open and options present, "down" always highlights an
/// option that exists, when the current highlight is a real option or none.
pub proof fn lemma_highlight_stays_in_range(current: Option<usize>, delta: int, n: usize)
    requires
        n > 0,
        n <= i32::MAX,
        delta == 1 || delta == -1,
        current matches Some(i) ==> i < n,
    ensures
        moved_highlight(current, delta, n) < n,
{
    if let Some(i) = current {
        assert((i as i32) as int == i as int);
        assert((n as i32) as int == n as int);
    }
}

/// Law: with the list open, "down" then "up" comes back to the highlighted
/// option, and so does "up" then "down", for a highlight on a real option.
pub proof fn lemma_down_then_up(i: usize, n: usize)
    requires
        i < n,
        n <= i32::MAX,
    ensures
        moved_highlight(Some(moved_highlight(Some(i), 1, n)), -1, n) == i,
        moved_highlight(Some(moved_highlight(Some(i), -1, n)), 1, n) == i,
{
    assert((i as i32) as int == i as int);
    assert((n as i32) as int == n as int);
    let d = moved_highlight(Some(i), 1, n);
    assert(d < n);
    assert((d as i32) as int == d as int);
    let u = moved_highlight(Some(i), -1, n);
    assert(u < n);
    assert((u as i32) as int == u as int);
}

/// Law: only `down` moves the highlight down and only `up` moves it up;
/// space (spelled `space` or ` `), escape and enter are told apart.
pub proof fn lemma_select_key_names(key: Seq<char>)
    ensures
        select_key_spec(key) == SelectKey::Down <==> key == "down"@,
        select_key_spec(key) == SelectKey::Up <==> key == "up"@,
        select_key_spec(key) == SelectKey::Space <==> (key == "space"@ || key == " "@),
        select_key_spec(key) == SelectKey::Escape <==> key == "escape"@,
        select_key_spec(key) == SelectKey::Enter <==> key == "enter"@,
{
    reveal_strlit("space");
    reveal_strlit(" ");
    reveal_strlit("escape");
    reveal_strlit("enter");
    reveal_strlit("down");
    reveal_strlit("up");
    assert("space"@.len() == 5 && " "@.len() == 1 && "escape"@.len() == 6);
    assert("enter"@.len() == 5 && "down"@.len() == 4 && "up"@.len() == 2);
    assert("space"@[0] == 's' && "enter"@[0] == 'e');
}

} // verus!
