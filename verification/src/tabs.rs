//! Tab strips: the tabs, which one is selected, and arrow-key navigation.

use vstd::prelude::*;
use crate::text::str_eq;

verus! {

/// The look of a tab strip.
#[derive(Debug, Clone, Copy, PartialEq, Eq, Structural)]
pub enum TabVariant {
    /// An accent line under the selected tab.
    Underline,
    /// Tabs drawn as enclosed boxes.
    Enclosed,
    /// Pill-shaped tabs.
    Pills,
    /// Cards with the icon on top, the label below and the badge last.
    VerticalCard,
}

impl Default for TabVariant {
    /// The underline look.
    fn default() -> (v: TabVariant)
        ensures
            v == TabVariant::Underline,
    {
        TabVariant::Underline
    }
}

/// One tab.
pub struct TabItem {
    /// Identifier reported when the tab is closed.
    pub id: String,
    /// Text of the tab.
    pub label: String,
    /// Icon name.
    pub icon: Option<String>,
    /// Small text shown beside the label.
    pub badge: Option<String>,
    /// Whether the tab is greyed out.
    pub disabled: bool,
    /// Whether the tab shows a close button.
    pub closeable: bool,
}

impl TabItem {
    /// An enabled tab that cannot be closed.
    pub fn new(id: &str, label: &str) -> (t: TabItem)
        ensures
            t.id@ == id@ && t.label@ == label@,
            t.icon is None && t.badge is None,
            !t.disabled && !t.closeable,
    {
        TabItem {
            id: id.to_owned(),
            label: label.to_owned(),
            icon: None,
            badge: None,
            disabled: false,
            closeable: false,
        }
    }

    /// Sets the icon.
    pub fn icon(self, icon: &str) -> (t: TabItem)
        ensures
            t.icon matches Some(i) && i@ == icon@,
            t.id == self.id && t.label == self.label && t.badge == self.badge,
            t.disabled == self.disabled && t.closeable == self.closeable,
    {
        TabItem { icon: Some(icon.to_owned()), ..self }
    }

    /// Sets the badge.
    pub fn badge(self, badge: &str) -> (t: TabItem)
        ensures
            t.badge matches Some(b) && b@ == badge@,
            t.id == self.id && t.label == self.label && t.icon == self.icon,
            t.disabled == self.disabled && t.closeable == self.closeable,
    {
        TabItem { badge: Some(badge.to_owned()), ..self }
    }

    /// Greys the tab out or not.
    pub fn disabled(self, disabled: bool) -> (t: TabItem)
        ensures
            t == (TabItem { disabled, ..self }),
    {
        TabItem { disabled, ..self }
    }

    /// Shows a close button or not.
    pub fn closeable(self, closeable: bool) -> (t: TabItem)
        ensures
            t == (TabItem { closeable, ..self }),
    {
        TabItem { closeable, ..self }
    }

    /// The tab's identifier.
    pub fn id(&self) -> (r: &String)
        ensures
            r == &self.id,
    {
        &self.id
    }
}

/// A strip of tabs with one selected.
pub struct Tabs {
    /// Identifier of the strip.
    pub id: String,
    /// The tabs.
    pub tabs: Vec<TabItem>,
    /// Index of the selected tab.
    pub selected_index: usize,
    /// The look.
    pub variant: TabVariant,
}

/// The tab that a key selects: left and right step to the neighbour (never
/// past either end), home goes to the first tab, end to the last; nothing
/// otherwise.
pub open spec fn tab_key_target(key: Seq<char>, selected: int, count: int) -> Option<int> {
    if key == "left"@ {
        if selected > 0 { Some(selected - 1) } else { None }
    } else if key == "right"@ {
        if selected + 1 < count { Some(selected + 1) } else { None }
    } else if key == "home"@ {
        Some(0)
    } else if key == "end"@ {
        if count > 0 { Some(count - 1) } else { None }
    } else {
        None
    }
}

impl Tabs {
    /// An empty strip with the first tab selected.
    pub fn new(id: &str) -> (t: Tabs)
        ensures
            t.id@ == id@,
            t.tabs@.len() == 0,
            t.selected_index == 0,
            t.variant == TabVariant::Underline,
    {
        Tabs { id: id.to_owned(), tabs: Vec::new(), selected_index: 0, variant: TabVariant::Underline }
    }

    /// Sets the tabs.
    pub fn tabs(self, tabs: Vec<TabItem>) -> (t: Tabs)
        ensures
            t == (Tabs { tabs, ..self }),
    {
        Tabs { tabs, ..self }
    }

    /// Selects tab `index`.
    pub fn selected_index(self, index: usize) -> (t: Tabs)
        ensures
            t == (Tabs { selected_index: index, ..self }),
    {
        Tabs { selected_index: index, ..self }
    }

    /// Sets the look.
    pub fn variant(self, variant: TabVariant) -> (t: Tabs)
        ensures
            t == (Tabs { variant, ..self }),
    {
        Tabs { variant, ..self }
    }

    /// The tab a click on tab `idx` selects: that tab, unless it is disabled.
    pub fn tab_click(&self, idx: usize) -> (r: Option<usize>)
        requires
            idx < self.tabs@.len(),
        ensures
            r == (if self.tabs@[idx as int].disabled { None } else { Some(idx) }),
    {
        if self.tabs[idx].disabled {
            None
        } else {
            Some(idx)
        }
    }

    /// The identifier a click on the close button of tab `idx` reports; a
    /// tab that cannot be closed has no close button.
    pub fn close_click(&self, idx: usize) -> (r: Option<&String>)
        requires
            idx < self.tabs@.len(),
        ensures
            r == (if self.tabs@[idx as int].closeable {
                Some(&self.tabs@[idx as int].id)
            } else {
                None
            }),
    {
        if self.tabs[idx].closeable {
            Some(&self.tabs[idx].id)
        } else {
            None
        }
    }

    /// The tab a key press selects, if any.
    pub fn key_target(&self, key: &str) -> (r: Option<usize>)
        ensures
            match r {
                Some(i) => tab_key_target(key@, self.selected_index as int, self.tabs@.len() as int)
                    == Some(i as int),
                None => tab_key_target(key@, self.selected_index as int, self.tabs@.len() as int)
                    is None,
            },
    {
        let selected = self.selected_index;
        let count = self.tabs.len();
        if str_eq(key, "left") {
            if selected > 0 { Some(selected - 1) } else { None }
        } else if str_eq(key, "right") {
            if count > 0 && selected < count - 1 { Some(selected + 1) } else { None }
        } else if str_eq(key, "home") {
            Some(0)
        } else if str_eq(key, "end") {
            if count > 0 { Some(count - 1) } else { None }
        } else {
            None
        }
    }
}

impl Default for Tabs {
    /// An empty strip named `tabs`.
    fn default() -> (t: Tabs)
        ensures
            t.id@ == "tabs"@,
            t.tabs@.len() == 0,
            t.selected_index == 0,
            t.variant == TabVariant::Underline,
    {
        Tabs::new("tabs")
    }
}

/// Law: from a tab that exists, the arrow keys, home and end only select
/// tabs that exist.
pub proof fn lemma_tab_target_in_range(key: Seq<char>, selected: int, count: int)
    requires
        0 <= selected < count,
    ensures
        tab_key_target(key, selected, count) matches Some(i) ==> 0 <= i < count,
{
}

/// Law: right then left returns to the starting tab when there is a tab to
/// its right.
pub proof fn lemma_right_then_left(selected: int, count: int)
    requires
        0 <= selected,
        selected + 1 < count,
    ensures
        tab_key_target("right"@, selected, count) == Some(selected + 1),
        tab_key_target("left"@, selected + 1, count) == Some(selected),
{
    reveal_strlit("right");
    reveal_strlit("left");
    assert("right"@.len() == 5 && "left"@.len() == 4);
    assert("right"@ != "left"@);
}

} // verus!
