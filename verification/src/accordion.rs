//! Accordions: which sections are open, what their headers show, and what a
//! click on a header asks for.

use vstd::prelude::*;
use crate::text::{str_eq, chars_of, string_from_chars};

verus! {

/// How many sections may be open at once.
#[derive(Debug, Clone, Copy, PartialEq, Eq, Structural)]
pub enum AccordionMode {
    /// Only one section open at a time.
    Single,
    /// Any number of sections open.
    Multiple,
}

impl Default for AccordionMode {
    /// One section at a time.
    fn default() -> (m: AccordionMode)
        ensures
            m == AccordionMode::Single,
    {
        AccordionMode::Single
    }
}

/// Where the headers stand and where the content opens.
#[derive(Debug, Clone, Copy, PartialEq, Eq, Structural)]
pub enum AccordionOrientation {
    /// Headers stacked, content opening downward.
    Vertical,
    /// Headers side by side, content opening downward.
    Horizontal,
    /// Headers stacked on the left, content opening to the right.
    Side,
}

impl Default for AccordionOrientation {
    /// Stacked headers.
    fn default() -> (o: AccordionOrientation)
        ensures
            o == AccordionOrientation::Vertical,
    {
        AccordionOrientation::Vertical
    }
}

/// One section of an accordion.
pub struct AccordionItem {
    /// Identifier of the section, reported when it is toggled.
    pub id: String,
    /// Header text.
    pub title: String,
    /// Whether the header ignores clicks.
    pub disabled: bool,
}

impl AccordionItem {
    /// An enabled section.
    pub fn new(id: &str, title: &str) -> (item: AccordionItem)
        ensures
            item.id@ == id@,
            item.title@ == title@,
            !item.disabled,
    {
        AccordionItem { id: id.to_owned(), title: title.to_owned(), disabled: false }
    }

    /// Sets whether the section ignores clicks.
    pub fn disabled(self, disabled: bool) -> (item: AccordionItem)
        ensures
            item.disabled == disabled,
            item.id == self.id,
            item.title == self.title,
    {
        AccordionItem { disabled, ..self }
    }

    /// The section's identifier.
    pub fn id(&self) -> (id: &String)
        ensures
            id == &self.id,
    {
        &self.id
    }
}

/// Whether `id` is among the identifiers `ids`.
pub open spec fn id_listed(ids: Seq<String>, id: Seq<char>) -> bool {
    exists|j: int| 0 <= j < ids.len() && #[trigger] ids[j]@ == id
}

/// Whether the identifier `id` is among `ids`.
pub fn contains_id(ids: &Vec<String>, id: &str) -> (r: bool)
    ensures
        r == id_listed(ids@, id@),
{
    let mut i: usize = 0;
    while i < ids.len()
        invariant
            i <= ids@.len(),
            forall|j: int| 0 <= j < i ==> #[trigger] ids@[j]@ != id@,
        decreases ids@.len() - i,
    {
        if str_eq(ids[i].as_str(), id) {
            return true;
        }
        i = i + 1;
    }
    false
}

/// An accordion: its sections, the identifiers of the open ones, how many may
/// be open and how it is laid out.
pub struct Accordion {
    /// The sections, in display order.
    pub items: Vec<AccordionItem>,
    /// Identifiers of the open sections.
    pub expanded: Vec<String>,
    /// How many sections may be open at once.
    pub mode: AccordionMode,
    /// Layout of headers and content.
    pub orientation: AccordionOrientation,
}

/// The arrow a header shows: pointing down when its section is open; closed,
/// it points right in the stacked layout and up otherwise.
pub open spec fn indicator_spec(orientation: AccordionOrientation, open: bool) -> Seq<char> {
    if open {
        "\u{25bc}"@
    } else if orientation == AccordionOrientation::Vertical {
        "\u{25b6}"@
    } else {
        "\u{25b2}"@
    }
}

/// The arrow a header shows (see `indicator_spec`).
pub fn indicator(orientation: AccordionOrientation, open: bool) -> (s: &'static str)
    ensures
        s@ == indicator_spec(orientation, open),
{
    if open {
        "\u{25bc}"
    } else if orientation == AccordionOrientation::Vertical {
        "\u{25b6}"
    } else {
        "\u{25b2}"
    }
}

/// The strings `lines` hold exactly the texts `want`, in order.
pub open spec fn lines_match(lines: Seq<String>, want: Seq<Seq<char>>) -> bool {
    &&& lines.len() == want.len()
    &&& forall|k: int| 0 <= k < lines.len() ==> #[trigger] lines[k]@ == want[k]
}

/// The text lines of a side-layout header: each character of the title on a
/// line of its own when the section is open; closed, only the first
/// character, or `?` for an empty title.
pub open spec fn side_label_spec(title: Seq<char>, open: bool) -> Seq<Seq<char>> {
    if open {
        Seq::new(title.len(), |i: int| seq![title[i]])
    } else if title.len() > 0 {
        seq![seq![title[0]]]
    } else {
        seq![seq!['?']]
    }
}

impl Accordion {
    /// An empty accordion: no sections, none open, one at a time, stacked.
    pub fn new() -> (a: Accordion)
        ensures
            a.items@.len() == 0,
            a.expanded@.len() == 0,
            a.mode == AccordionMode::Single,
            a.orientation == AccordionOrientation::Vertical,
    {
        Accordion {
            items: Vec::new(),
            expanded: Vec::new(),
            mode: AccordionMode::Single,
            orientation: AccordionOrientation::Vertical,
        }
    }

    /// Replaces the sections.
    pub fn items(self, items: Vec<AccordionItem>) -> (a: Accordion)
        ensures
            a.items == items,
            a.expanded == self.expanded,
            a.mode == self.mode,
            a.orientation == self.orientation,
    {
        Accordion { items, ..self }
    }

    /// Adds a section at the end.
    pub fn item(self, item: AccordionItem) -> (a: Accordion)
        ensures
            a.items@ == self.items@.push(item),
            a.expanded == self.expanded,
            a.mode == self.mode,
            a.orientation == self.orientation,
    {
        let mut s = self;
        s.items.push(item);
        s
    }

    /// Sets the identifiers of the open sections.
    pub fn expanded(self, expanded: Vec<String>) -> (a: Accordion)
        ensures
            a.expanded == expanded,
            a.items == self.items,
            a.mode == self.mode,
            a.orientation == self.orientation,
    {
        Accordion { expanded, ..self }
    }

    /// Sets how many sections may be open.
    pub fn mode(self, mode: AccordionMode) -> (a: Accordion)
        ensures
            a.mode == mode,
            a.items == self.items,
            a.expanded == self.expanded,
            a.orientation == self.orientation,
    {
        Accordion { mode, ..self }
    }

    /// Sets the layout.
    pub fn orientation(self, orientation: AccordionOrientation) -> (a: Accordion)
        ensures
            a.orientation == orientation,
            a.items == self.items,
            a.expanded == self.expanded,
            a.mode == self.mode,
    {
        Accordion { orientation, ..self }
    }

    /// Whether section `idx` is open. With several sections open at once,
    /// its identifier is among the listed ones; with one at a time, it is the
    /// first listed identifier, so that at most one section reads as open.
    pub open spec fn is_open(&self, idx: int) -> bool {
        match self.mode {
            AccordionMode::Multiple => id_listed(self.expanded@, self.items@[idx].id@),
            AccordionMode::Single => self.expanded@.len() > 0
                && self.expanded@[0]@ == self.items@[idx].id@,
        }
    }

    /// Whether section `idx` is open (see `is_open`).
    pub fn is_expanded(&self, idx: usize) -> (r: bool)
        requires
            idx < self.items@.len(),
        ensures
            r == self.is_open(idx as int),
    {
        match self.mode {
            AccordionMode::Multiple => contains_id(&self.expanded, self.items[idx].id.as_str()),
            AccordionMode::Single => self.expanded.len() > 0 && str_eq(
                self.expanded[0].as_str(),
                self.items[idx].id.as_str(),
            ),
        }
    }

    /// The arrow shown on the header of section `idx`.
    pub fn header_indicator(&self, idx: usize) -> (s: &'static str)
        requires
            idx < self.items@.len(),
        ensures
            s@ == indicator_spec(self.orientation, self.is_open(idx as int)),
    {
        let open = self.is_expanded(idx);
        indicator(self.orientation, open)
    }

    /// What a click on the header of section `idx` reports: the section's
    /// new open state, the opposite of the current one; nothing for a
    /// disabled section.
    pub fn header_click(&self, idx: usize) -> (r: Option<bool>)
        requires
            idx < self.items@.len(),
        ensures
            self.items@[idx as int].disabled ==> r is None,
            !self.items@[idx as int].disabled ==> r == Some(!self.is_open(idx as int)),
    {
        if self.items[idx].disabled {
            None
        } else {
            Some(!self.is_expanded(idx))
        }
    }

    /// The text lines of the side-layout header of section `idx`.
    pub fn side_label(&self, idx: usize) -> (lines: Vec<String>)
        requires
            idx < self.items@.len(),
        ensures
            lines_match(
                lines@,
                side_label_spec(self.items@[idx as int].title@, self.is_open(idx as int)),
            ),
    {
        let open = self.is_expanded(idx);
        let title = chars_of(self.items[idx].title.as_str());
        let ghost want = side_label_spec(self.items@[idx as int].title@, open);
        let mut lines: Vec<String> = Vec::new();
        if open {
            let mut i: usize = 0;
            while i < title.len()
                invariant
                    i <= title@.len(),
                    open,
                    want == side_label_spec(title@, open),
                    lines@.len() == i,
                    forall|k: int| 0 <= k < i ==> #[trigger] lines@[k]@ == want[k],
                decreases title@.len() - i,
            {
                let one = vec![title[i]];
                let line = string_from_chars(&one);
                assert(one@ =~= seq![title@[i as int]]);
                lines.push(line);
                i = i + 1;
            }
        } else {
            let c = if title.len() > 0 { title[0] } else { '?' };
            let one = vec![c];
            lines.push(string_from_chars(&one));
            assert(one@ =~= seq![c]);
        }
        lines
    }
}

impl Default for Accordion {
    /// The empty accordion of `new`.
    fn default() -> (a: Accordion)
        ensures
            a.items@.len() == 0,
            a.expanded@.len() == 0,
            a.mode == AccordionMode::Single,
            a.orientation == AccordionOrientation::Vertical,
    {
        Accordion::new()
    }
}

/// The open list after a header click that asked for `asked` on the section
/// with identifier `id`: closing removes the identifier; opening lists it
/// alone when one section is open at a time, and adds it otherwise.
pub open spec fn applied_click(
    mode: AccordionMode,
    expanded: Seq<String>,
    id: String,
    asked: bool,
) -> Seq<String> {
    if !asked {
        expanded.filter(|s: String| s@ != id@)
    } else if mode == AccordionMode::Single {
        seq![id]
    } else {
        expanded.push(id)
    }
}

/// A click on an enabled header asks for the opposite of what is shown: once
/// the reported state is applied to the open list, the section reads as open
/// exactly when the click asked for it.
pub proof fn lemma_click_toggles(a: Accordion, idx: int, asked: bool, after: Accordion)
    requires
        0 <= idx < a.items@.len(),
        !a.items@[idx].disabled,
        asked == !a.is_open(idx),
        after.items == a.items,
        after.mode == a.mode,
        after.expanded@ == applied_click(a.mode, a.expanded@, a.items@[idx].id, asked),
    ensures
        after.is_open(idx) == asked,
{
    let id = a.items@[idx].id;
    let ne = after.expanded@;
    if asked {
        if a.mode == AccordionMode::Multiple {
            assert(ne[a.expanded@.len() as int] == id);
        }
    } else {
        broadcast use vstd::seq_lib::group_filter_ensures;
        if id_listed(ne, id@) {
            let j = choose|j: int| 0 <= j < ne.len() && #[trigger] ne[j]@ == id@;
            assert(ne[j]@ != id@);
        }
        if ne.len() > 0 {
            assert(ne[0]@ != id@);
        }
    }
}

/// Law: with one section open at a time, two sections with different
/// identifiers never both read as open.
pub proof fn lemma_single_mode_one_open(a: Accordion, i: int, j: int)
    requires
        a.mode == AccordionMode::Single,
        0 <= i < a.items@.len(),
        0 <= j < a.items@.len(),
        a.items@[i].id@ != a.items@[j].id@,
    ensures
        !(a.is_open(i) && a.is_open(j)),
{
}

} // verus!
