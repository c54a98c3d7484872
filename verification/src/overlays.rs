//! Floating and framing pieces: popovers and where they open, loading
//! overlays, status bars and settings forms.

use vstd::prelude::*;

verus! {

/// Where a popover opens relative to its trigger.
#[derive(Debug, Clone, Copy, PartialEq, Eq, Structural)]
pub enum PopoverPlacement {
    Top,
    Bottom,
    Left,
    Right,
    TopStart,
    TopEnd,
    BottomStart,
    BottomEnd,
}

impl Default for PopoverPlacement {
    /// Below the trigger.
    fn default() -> (p: PopoverPlacement)
        ensures
            p == PopoverPlacement::Bottom,
    {
        PopoverPlacement::Bottom
    }
}

/// The side of the trigger a popover opens on.
#[derive(Debug, Clone, Copy, PartialEq, Eq, Structural)]
pub enum PopoverSide {
    Above,
    Below,
    LeftOf,
    RightOf,
}

/// The edge of the trigger a popover lines up with.
#[derive(Debug, Clone, Copy, PartialEq, Eq, Structural)]
pub enum PopoverAlign {
    /// Its left edge with the trigger's left edge.
    LeftEdge,
    /// Its right edge with the trigger's right edge.
    RightEdge,
    /// Its top edge with the trigger's top edge.
    TopEdge,
}

impl PopoverPlacement {
    /// The side and alignment of a placement: top and bottom placements
    /// align left unless they end at the trigger's end; left and right
    /// placements align with the top.
    pub open spec fn anchor_spec(self) -> (PopoverSide, PopoverAlign) {
        match self {
            PopoverPlacement::Top | PopoverPlacement::TopStart => (PopoverSide::Above, PopoverAlign::LeftEdge),
            PopoverPlacement::TopEnd => (PopoverSide::Above, PopoverAlign::RightEdge),
            PopoverPlacement::Bottom | PopoverPlacement::BottomStart => (PopoverSide::Below, PopoverAlign::LeftEdge),
            PopoverPlacement::BottomEnd => (PopoverSide::Below, PopoverAlign::RightEdge),
            PopoverPlacement::Left => (PopoverSide::LeftOf, PopoverAlign::TopEdge),
            PopoverPlacement::Right => (PopoverSide::RightOf, PopoverAlign::TopEdge),
        }
    }

    /// The side and alignment of the placement.
    pub fn anchor(&self) -> (a: (PopoverSide, PopoverAlign))
        ensures
            a == self.anchor_spec(),
    {
        match self {
            PopoverPlacement::Top | PopoverPlacement::TopStart => (PopoverSide::Above, PopoverAlign::LeftEdge),
            PopoverPlacement::TopEnd => (PopoverSide::Above, PopoverAlign::RightEdge),
            PopoverPlacement::Bottom | PopoverPlacement::BottomStart => (PopoverSide::Below, PopoverAlign::LeftEdge),
            PopoverPlacement::BottomEnd => (PopoverSide::Below, PopoverAlign::RightEdge),
            PopoverPlacement::Left => (PopoverSide::LeftOf, PopoverAlign::TopEdge),
            PopoverPlacement::Right => (PopoverSide::RightOf, PopoverAlign::TopEdge),
        }
    }
}

/// A popover's settings. `has_on_close` records whether a close handler was
/// given.
pub struct Popover {
    /// Identifier of the popover.
    pub id: String,
    /// Where it opens.
    pub placement: PopoverPlacement,
    /// Whether a transparent backdrop catches clicks outside it.
    pub show_backdrop: bool,
    /// Whether a close handler was given.
    pub has_on_close: bool,
}

impl Popover {
    /// A popover below its trigger, with a backdrop.
    pub fn new(id: &str) -> (p: Popover)
        ensures
            p.id@ == id@,
            p.placement == PopoverPlacement::Bottom,
            p.show_backdrop && !p.has_on_close,
    {
        Popover { id: id.to_owned(), placement: PopoverPlacement::Bottom, show_backdrop: true, has_on_close: false }
    }

    /// Sets where it opens.
    pub fn placement(self, placement: PopoverPlacement) -> (p: Popover)
        ensures
            p == (Popover { placement, ..self }),
    {
        Popover { placement, ..self }
    }

    /// Sets whether a backdrop catches outside clicks.
    pub fn show_backdrop(self, show: bool) -> (p: Popover)
        ensures
            p == (Popover { show_backdrop: show, ..self }),
    {
        Popover { show_backdrop: show, ..self }
    }

    /// Records that a close handler was given.
    pub fn on_close(self) -> (p: Popover)
        ensures
            p == (Popover { has_on_close: true, ..self }),
    {
        Popover { has_on_close: true, ..self }
    }

    /// Whether a click outside the popover closes it: only through the
    /// backdrop, and only with a close handler.
    pub fn outside_click_closes(&self) -> (r: bool)
        ensures
            r == (self.show_backdrop && self.has_on_close),
    {
        self.show_backdrop && self.has_on_close
    }
}

/// A loading overlay's settings. `has_on_dismiss` records whether a dismiss
/// handler was given.
pub struct LoadingOverlay {
    /// Identifier of the overlay.
    pub id: String,
    /// Main line under the spinner.
    pub message: Option<String>,
    /// Smaller line under the message.
    pub subtitle: Option<String>,
    /// Whether a click dismisses it.
    pub dismissible: bool,
    /// Whether a dismiss handler was given.
    pub has_on_dismiss: bool,
}

impl LoadingOverlay {
    /// An overlay without text that cannot be dismissed.
    pub fn new(id: &str) -> (o: LoadingOverlay)
        ensures
            o.id@ == id@,
            o.message is None && o.subtitle is None,
            !o.dismissible && !o.has_on_dismiss,
    {
        LoadingOverlay { id: id.to_owned(), message: None, subtitle: None, dismissible: false, has_on_dismiss: false }
    }

    /// Sets the message.
    pub fn message(self, message: &str) -> (o: LoadingOverlay)
        ensures
            o.message matches Some(m) && m@ == message@,
            o.id == self.id && o.subtitle == self.subtitle,
            o.dismissible == self.dismissible && o.has_on_dismiss == self.has_on_dismiss,
    {
        LoadingOverlay { message: Some(message.to_owned()), ..self }
    }

    /// Sets the subtitle.
    pub fn subtitle(self, subtitle: &str) -> (o: LoadingOverlay)
        ensures
            o.subtitle matches Some(s) && s@ == subtitle@,
            o.id == self.id && o.message == self.message,
            o.dismissible == self.dismissible && o.has_on_dismiss == self.has_on_dismiss,
    {
        LoadingOverlay { subtitle: Some(subtitle.to_owned()), ..self }
    }

    /// Sets whether a click dismisses it.
    pub fn dismissible(self, dismissible: bool) -> (o: LoadingOverlay)
        ensures
            o == (LoadingOverlay { dismissible, ..self }),
    {
        LoadingOverlay { dismissible, ..self }
    }

    /// Records that a dismiss handler was given.
    pub fn on_dismiss(self) -> (o: LoadingOverlay)
        ensures
            o == (LoadingOverlay { has_on_dismiss: true, ..self }),
    {
        LoadingOverlay { has_on_dismiss: true, ..self }
    }

    /// Whether a click dismisses the overlay: when dismissible and a handler
    /// was given; otherwise clicks are swallowed.
    pub fn click_dismisses(&self) -> (r: bool)
        ensures
            r == (self.dismissible && self.has_on_dismiss),
    {
        self.dismissible && self.has_on_dismiss
    }
}

/// Where a status bar sits.
#[derive(Debug, Clone, Copy, PartialEq, Eq, Structural)]
pub enum StatusBarPosition {
    Top,
    Bottom,
}

impl Default for StatusBarPosition {
    /// At the bottom.
    fn default() -> (p: StatusBarPosition)
        ensures
            p == StatusBarPosition::Bottom,
    {
        StatusBarPosition::Bottom
    }
}

/// The edge of a status bar that carries its border.
#[derive(Debug, Clone, Copy, PartialEq, Eq, Structural)]
pub enum BorderEdge {
    Top,
    Bottom,
}

impl StatusBarPosition {
    /// The border faces the content: at the bottom of a top bar and at the
    /// top of a bottom bar.
    pub fn border_edge(&self) -> (e: BorderEdge)
        ensures
            e == (if *self == StatusBarPosition::Top { BorderEdge::Bottom } else { BorderEdge::Top }),
    {
        match self {
            StatusBarPosition::Top => BorderEdge::Bottom,
            StatusBarPosition::Bottom => BorderEdge::Top,
        }
    }
}

/// A labelled row of a settings form.
pub struct SettingsRow {
    /// The setting's name.
    pub label: String,
    /// Smaller text under the name.
    pub description: Option<String>,
}

impl SettingsRow {
    /// A row without description.
    pub fn new(label: &str) -> (r: SettingsRow)
        ensures
            r.label@ == label@,
            r.description is None,
    {
        SettingsRow { label: label.to_owned(), description: None }
    }

    /// Sets the description.
    pub fn description(self, description: &str) -> (r: SettingsRow)
        ensures
            r.label == self.label,
            r.description matches Some(d) && d@ == description@,
    {
        SettingsRow { description: Some(description.to_owned()), ..self }
    }
}

/// One entry of a settings form: a section title or a labelled row.
pub enum SettingsEntry {
    /// A section title.
    Section(String),
    /// A labelled row.
    Row(SettingsRow),
}

/// A settings form: section titles and labelled rows, in order.
pub struct SettingsForm {
    /// Identifier of the form.
    pub id: String,
    /// The entries, top to bottom.
    pub entries: Vec<SettingsEntry>,
}

impl SettingsForm {
    /// An empty form.
    pub fn new(id: &str) -> (f: SettingsForm)
        ensures
            f.id@ == id@,
            f.entries@.len() == 0,
    {
        SettingsForm { id: id.to_owned(), entries: Vec::new() }
    }

    /// Adds a section title.
    pub fn section(self, title: &str) -> (f: SettingsForm)
        ensures
            f.id == self.id,
            f.entries@.len() == self.entries@.len() + 1,
            f.entries@.take(self.entries@.len() as int) == self.entries@,
            f.entries@.last() matches SettingsEntry::Section(t) && t@ == title@,
    {
        let mut f = self;
        f.entries.push(SettingsEntry::Section(title.to_owned()));
        f
    }

    /// Adds a row.
    pub fn row(self, row: SettingsRow) -> (f: SettingsForm)
        ensures
            f.id == self.id,
            f.entries@ == self.entries@.push(SettingsEntry::Row(row)),
    {
        let mut f = self;
        f.entries.push(SettingsEntry::Row(row));
        f
    }

    /// Whether a spacer goes before entry `idx`: before every section title
    /// but the first entry.
    pub fn spacer_before(&self, idx: usize) -> (r: bool)
        requires
            idx < self.entries@.len(),
        ensures
            r == (idx > 0 && self.entries@[idx as int] is Section),
    {
        match &self.entries[idx] {
            SettingsEntry::Section(_) => idx > 0,
            SettingsEntry::Row(_) => false,
        }
    }
}

} // verus!
