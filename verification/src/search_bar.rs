//! Search bars: what the field shows and when its clear button appears.

use vstd::prelude::*;

verus! {

/// The size of a search bar.
#[derive(Debug, Clone, Copy, PartialEq, Eq, Structural)]
pub enum SearchBarSize {
    Sm,
    Md,
    Lg,
}

impl Default for SearchBarSize {
    /// Medium.
    fn default() -> (s: SearchBarSize)
        ensures
            s == SearchBarSize::Md,
    {
        SearchBarSize::Md
    }
}

impl SearchBarSize {
    /// Height in pixels: 28, 34 or 40.
    pub fn height(&self) -> (h: u32)
        ensures
            h == match *self {
                SearchBarSize::Sm => 28u32,
                SearchBarSize::Md => 34,
                SearchBarSize::Lg => 40,
            },
    {
        match self {
            SearchBarSize::Sm => 28,
            SearchBarSize::Md => 34,
            SearchBarSize::Lg => 40,
        }
    }

    /// Whether the text is extra small: only in small bars.
    pub fn small_text(&self) -> (r: bool)
        ensures
            r == (*self == SearchBarSize::Sm),
    {
        match self {
            SearchBarSize::Sm => true,
            _ => false,
        }
    }
}

/// A search field's settings. `has_on_change` records whether a change
/// handler was given.
pub struct SearchBar {
    /// Identifier of the field.
    pub id: String,
    /// The query typed so far.
    pub value: String,
    /// Text shown while the query is empty.
    pub placeholder: String,
    /// Its size.
    pub size: SearchBarSize,
    /// Whether the magnifier icon is drawn.
    pub show_icon: bool,
    /// Whether a clear button may be drawn.
    pub show_clear: bool,
    /// Whether a change handler was given.
    pub has_on_change: bool,
}

impl SearchBar {
    /// An empty medium field with "Search...", the icon and a clear button.
    pub fn new(id: &str) -> (s: SearchBar)
        ensures
            s.id@ == id@,
            s.value@ == ""@,
            s.placeholder@ == "Search..."@,
            s.size == SearchBarSize::Md,
            s.show_icon && s.show_clear,
            !s.has_on_change,
    {
        SearchBar {
            id: id.to_owned(),
            value: "".to_owned(),
            placeholder: "Search...".to_owned(),
            size: SearchBarSize::Md,
            show_icon: true,
            show_clear: true,
            has_on_change: false,
        }
    }

    /// Sets the query.
    pub fn value(self, value: &str) -> (s: SearchBar)
        ensures
            s.value@ == value@,
            s.id == self.id && s.placeholder == self.placeholder && s.size == self.size,
            s.show_icon == self.show_icon && s.show_clear == self.show_clear,
            s.has_on_change == self.has_on_change,
    {
        SearchBar { value: value.to_owned(), ..self }
    }

    /// Sets the placeholder.
    pub fn placeholder(self, placeholder: &str) -> (s: SearchBar)
        ensures
            s.placeholder@ == placeholder@,
            s.id == self.id && s.value == self.value && s.size == self.size,
            s.show_icon == self.show_icon && s.show_clear == self.show_clear,
            s.has_on_change == self.has_on_change,
    {
        SearchBar { placeholder: placeholder.to_owned(), ..self }
    }

    /// Sets the size.
    pub fn size(self, size: SearchBarSize) -> (s: SearchBar)
        ensures
            s == (SearchBar { size, ..self }),
    {
        SearchBar { size, ..self }
    }

    /// Shows or hides the icon.
    pub fn show_icon(self, show: bool) -> (s: SearchBar)
        ensures
            s == (SearchBar { show_icon: show, ..self }),
    {
        SearchBar { show_icon: show, ..self }
    }

    /// Allows or forbids the clear button.
    pub fn show_clear(self, show: bool) -> (s: SearchBar)
        ensures
            s == (SearchBar { show_clear: show, ..self }),
    {
        SearchBar { show_clear: show, ..self }
    }

    /// Records that a change handler was given.
    pub fn on_change(self) -> (s: SearchBar)
        ensures
            s == (SearchBar { has_on_change: true, ..self }),
    {
        SearchBar { has_on_change: true, ..self }
    }

    /// The text the field shows: the query, or the placeholder while the
    /// query is empty.
    pub fn shown_text(&self) -> (t: &String)
        ensures
            self.value@.len() > 0 ==> t == &self.value,
            self.value@.len() == 0 ==> t == &self.placeholder,
    {
        if self.value.as_str().is_empty() {
            &self.placeholder
        } else {
            &self.value
        }
    }

    /// The clear button is drawn when allowed and the query is not empty.
    pub fn clear_button_shown(&self) -> (r: bool)
        ensures
            r == (self.show_clear && self.value@.len() > 0),
    {
        self.show_clear && !self.value.as_str().is_empty()
    }

    /// The query a click on the clear button reports: the empty one, when
    /// the button is drawn and a change handler was given.
    pub fn clear_click(&self) -> (r: Option<String>)
        ensures
            r is Some <==> self.show_clear && self.value@.len() > 0 && self.has_on_change,
            r matches Some(q) ==> q@ == ""@,
    {
        if self.clear_button_shown() && self.has_on_change {
            Some("".to_owned())
        } else {
            None
        }
    }
}

} // verus!
