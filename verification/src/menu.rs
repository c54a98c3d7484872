//! Menus: items, keyboard navigation over the selectable ones, and the menu bar.

use vstd::prelude::*;
use crate::text::str_eq;

verus! {

/// One entry of a menu.
pub struct MenuItem {
    /// Identifier reported when the item is chosen.
    pub id: String,
    /// Text shown for the item.
    pub label: String,
    /// Keyboard shortcut shown beside the label.
    pub shortcut: Option<String>,
    /// Icon shown before the label.
    pub icon: Option<String>,
    /// Whether the item cannot be chosen.
    pub disabled: bool,
    /// Whether the item is a separator line.
    pub is_separator: bool,
    /// Whether the item shows a check box.
    pub is_checkbox: bool,
    /// Whether the check box is ticked.
    pub checked: bool,
    /// Whether the item is a destructive action.
    pub is_danger: bool,
    /// Items of a submenu.
    pub children: Vec<MenuItem>,
}

/// A plain item with this id and label: enabled, no shortcut, icon or submenu.
pub open spec fn is_plain_item(m: MenuItem, id: Seq<char>, label: Seq<char>) -> bool {
    &&& m.id@ == id
    &&& m.label@ == label
    &&& m.shortcut is None
    &&& m.icon is None
    &&& !m.disabled
    &&& !m.is_separator
    &&& !m.is_checkbox
    &&& !m.checked
    &&& !m.is_danger
    &&& m.children@.len() == 0
}

impl MenuItem {
    /// A plain, enabled item.
    pub fn new(id: &str, label: &str) -> (m: MenuItem)
        ensures
            is_plain_item(m, id@, label@),
    {
        MenuItem {
            id: id.to_owned(),
            label: label.to_owned(),
            shortcut: None,
            icon: None,
            disabled: false,
            is_separator: false,
            is_checkbox: false,
            checked: false,
            is_danger: false,
            children: Vec::new(),
        }
    }

    /// A separator line; it can never be chosen.
    pub fn separator() -> (m: MenuItem)
        ensures
            m.is_separator,
            m.disabled,
            m.id@ == "separator"@,
            m.label@ == ""@,
            !m.is_checkbox && !m.checked && !m.is_danger,
            m.shortcut is None && m.icon is None,
            m.children@.len() == 0,
    {
        MenuItem {
            id: "separator".to_owned(),
            label: "".to_owned(),
            shortcut: None,
            icon: None,
            disabled: true,
            is_separator: true,
            is_checkbox: false,
            checked: false,
            is_danger: false,
            children: Vec::new(),
        }
    }

    /// An item with a check box, ticked or not.
    pub fn checkbox(id: &str, label: &str, checked: bool) -> (m: MenuItem)
        ensures
            m.id@ == id@ && m.label@ == label@,
            m.is_checkbox && m.checked == checked,
            !m.disabled && !m.is_separator && !m.is_danger,
            m.shortcut is None && m.icon is None,
            m.children@.len() == 0,
    {
        MenuItem {
            id: id.to_owned(),
            label: label.to_owned(),
            shortcut: None,
            icon: None,
            disabled: false,
            is_separator: false,
            is_checkbox: true,
            checked,
            is_danger: false,
            children: Vec::new(),
        }
    }

    /// Shows a keyboard shortcut.
    pub fn with_shortcut(self, shortcut: &str) -> (m: MenuItem)
        ensures
            m.shortcut matches Some(s) && s@ == shortcut@,
            m.id == self.id && m.label == self.label && m.icon == self.icon,
            m.disabled == self.disabled && m.is_separator == self.is_separator,
            m.is_checkbox == self.is_checkbox && m.checked == self.checked,
            m.is_danger == self.is_danger && m.children == self.children,
    {
        let mut m = self;
        m.shortcut = Some(shortcut.to_owned());
        m
    }

    /// Shows an icon.
    pub fn with_icon(self, icon: &str) -> (m: MenuItem)
        ensures
            m.icon matches Some(s) && s@ == icon@,
            m.id == self.id && m.label == self.label && m.shortcut == self.shortcut,
            m.disabled == self.disabled && m.is_separator == self.is_separator,
            m.is_checkbox == self.is_checkbox && m.checked == self.checked,
            m.is_danger == self.is_danger && m.children == self.children,
    {
        let mut m = self;
        m.icon = Some(icon.to_owned());
        m
    }

    /// Enables or disables the item.
    pub fn disabled(self, disabled: bool) -> (m: MenuItem)
        ensures
            m == (MenuItem { disabled, ..self }),
    {
        let mut m = self;
        m.disabled = disabled;
        m
    }

    /// Sets the submenu items.
    pub fn with_children(self, children: Vec<MenuItem>) -> (m: MenuItem)
        ensures
            m == (MenuItem { children, ..self }),
    {
        let mut m = self;
        m.children = children;
        m
    }

    /// The item's identifier.
    pub fn id(&self) -> (id: &String)
        ensures
            id == &self.id,
    {
        &self.id
    }

    /// Whether the item is a separator.
    pub fn is_separator(&self) -> (r: bool)
        ensures
            r == self.is_separator,
    {
        self.is_separator
    }

    /// Marks the item as a destructive action.
    pub fn danger(self) -> (m: MenuItem)
        ensures
            m == (MenuItem { is_danger: true, ..self }),
    {
        let mut m = self;
        m.is_danger = true;
        m
    }

    /// Whether the item is a destructive action.
    pub fn is_danger(&self) -> (r: bool)
        ensures
            r == self.is_danger,
    {
        self.is_danger
    }

    /// The mark in front of a check box item: a tick when checked, a blank
    /// otherwise; other items have none.
    pub fn check_mark(&self) -> (m: Option<&'static str>)
        ensures
            self.is_checkbox && self.checked ==> (m matches Some(t) && t@ == "\u{2713}"@),
            self.is_checkbox && !self.checked ==> (m matches Some(t) && t@ == " "@),
            !self.is_checkbox ==> m is None,
    {
        if self.is_checkbox {
            if self.checked {
                Some("\u{2713}")
            } else {
                Some(" ")
            }
        } else {
            None
        }
    }
}

/// Item `i` can be focused and chosen: neither a separator nor disabled.
pub open spec fn selectable(items: Seq<MenuItem>, i: int) -> bool {
    0 <= i < items.len() && !items[i].is_separator && !items[i].disabled
}

/// The first selectable index at or after `i`.
pub open spec fn next_selectable_from(items: Seq<MenuItem>, i: int) -> Option<int>
    decreases items.len() - i,
{
    if i < 0 || i >= items.len() {
        None
    } else if selectable(items, i) {
        Some(i)
    } else {
        next_selectable_from(items, i + 1)
    }
}

/// The last selectable index before `i`.
pub open spec fn prev_selectable_before(items: Seq<MenuItem>, i: int) -> Option<int>
    decreases i,
{
    if i <= 0 {
        None
    } else if i > items.len() {
        prev_selectable_before(items, items.len() as int)
    } else if selectable(items, i - 1) {
        Some(i - 1)
    } else {
        prev_selectable_before(items, i - 1)
    }
}

/// First selectable index.
pub open spec fn first_selectable(items: Seq<MenuItem>) -> Option<int> {
    next_selectable_from(items, 0)
}

/// Last selectable index.
pub open spec fn last_selectable(items: Seq<MenuItem>) -> Option<int> {
    prev_selectable_before(items, items.len() as int)
}

/// Focus after "down": the next selectable item after the current one,
/// wrapping to the first; from no focus, the first.
pub open spec fn next_focus(items: Seq<MenuItem>, current: Option<usize>) -> Option<int> {
    match current {
        None => first_selectable(items),
        Some(c) => match next_selectable_from(items, c + 1) {
            Some(i) => Some(i),
            None => first_selectable(items),
        },
    }
}

/// Focus after "up": the previous selectable item before the current one,
/// wrapping to the last; from no focus, the last.
pub open spec fn prev_focus(items: Seq<MenuItem>, current: Option<usize>) -> Option<int> {
    match current {
        None => last_selectable(items),
        Some(c) => match prev_selectable_before(items, c as int) {
            Some(i) => Some(i),
            None => last_selectable(items),
        },
    }
}

/// An index option as seen by specifications.
pub open spec fn opt_int(o: Option<usize>) -> Option<int> {
    match o {
        Some(i) => Some(i as int),
        None => None,
    }
}

/// What a key press asks of a menu.
pub enum MenuKeyAction {
    /// Close the menu.
    Close,
    /// The item with this id was chosen.
    Select(String),
    /// Move the keyboard focus.
    FocusChange(Option<usize>),
    /// Nothing.
    Nothing,
}

/// A dropdown menu and its keyboard focus.
pub struct Menu {
    /// Identifier of the menu.
    pub id: String,
    /// The entries.
    pub items: Vec<MenuItem>,
    /// Index of the item that has the keyboard focus.
    pub focused_index: Option<usize>,
}

proof fn lemma_next_selectable_from(items: Seq<MenuItem>, i: int)
    requires
        0 <= i,
    ensures
        next_selectable_from(items, i) matches Some(j) ==> i <= j < items.len() && selectable(
            items,
            j,
        ) && forall|k: int| i <= k < j ==> !selectable(items, k),
        next_selectable_from(items, i) is None ==> forall|k: int|
            i <= k < items.len() ==> !selectable(items, k),
    decreases items.len() - i,
{
    if i < items.len() && !selectable(items, i) {
        lemma_next_selectable_from(items, i + 1);
    }
}

proof fn lemma_prev_selectable_before(items: Seq<MenuItem>, i: int)
    requires
        i <= items.len(),
    ensures
        prev_selectable_before(items, i) matches Some(j) ==> 0 <= j < i && selectable(items, j)
            && forall|k: int| j < k < i ==> !selectable(items, k),
        prev_selectable_before(items, i) is None ==> forall|k: int|
            0 <= k < i ==> !selectable(items, k),
    decreases i,
{
    if i > 0 && !selectable(items, i - 1) {
        lemma_prev_selectable_before(items, i - 1);
    }
}

impl Menu {
    /// A menu with these items and no keyboard focus.
    pub fn new(id: &str, items: Vec<MenuItem>) -> (m: Menu)
        ensures
            m.id@ == id@,
            m.items == items,
            m.focused_index is None,
    {
        Menu { id: id.to_owned(), items, focused_index: None }
    }

    /// Gives the keyboard focus to item `index`.
    pub fn focused_index(self, index: usize) -> (m: Menu)
        ensures
            m.id == self.id,
            m.items == self.items,
            m.focused_index == Some(index),
    {
        let mut m = self;
        m.focused_index = Some(index);
        m
    }

    /// Whether item `i` can be focused and chosen.
    fn is_selectable(&self, i: usize) -> (r: bool)
        requires
            i < self.items@.len(),
        ensures
            r == selectable(self.items@, i as int),
    {
        !self.items[i].is_separator && !self.items[i].disabled
    }

    /// Indices of the selectable items, in increasing order.
    pub fn selectable_indices(&self) -> (r: Vec<usize>)
        ensures
            forall|k: int| 0 <= k < r@.len() ==> selectable(self.items@, #[trigger] r@[k] as int),
            forall|k: int, l: int| 0 <= k < l < r@.len() ==> r@[k] < r@[l],
            forall|i: int| selectable(self.items@, i) ==> r@.contains(i as usize),
    {
        let mut r: Vec<usize> = Vec::new();
        let mut i: usize = 0;
        while i < self.items.len()
            invariant
                i <= self.items@.len(),
                forall|k: int| 0 <= k < r@.len() ==> selectable(self.items@, #[trigger] r@[k] as int),
                forall|k: int| 0 <= k < r@.len() ==> #[trigger] r@[k] < i,
                forall|k: int, l: int| 0 <= k < l < r@.len() ==> r@[k] < r@[l],
                forall|j: int| 0 <= j < i && selectable(self.items@, j) ==> r@.contains(j as usize),
            decreases self.items@.len() - i,
        {
            let ghost old_r = r@;
            if self.is_selectable(i) {
                r.push(i);
                assert(r@[r@.len() - 1] == i);
                assert forall|j: int| 0 <= j < i && selectable(self.items@, j) implies r@.contains(
                    j as usize,
                ) by {
                    let k = choose|k: int| 0 <= k < old_r.len() && old_r[k] == j as usize;
                    assert(r@[k] == j as usize);
                }
            }
            i = i + 1;
        }
        r
    }

    /// The first selectable index at or after `from`.
    fn scan_forward(&self, from: usize) -> (r: Option<usize>)
        ensures
            opt_int(r) == next_selectable_from(self.items@, from as int),
    {
        let mut i = from;
        while i < self.items.len()
            invariant
                from <= i,
                next_selectable_from(self.items@, from as int) == next_selectable_from(
                    self.items@,
                    i as int,
                ),
            decreases self.items@.len() - i,
        {
            if self.is_selectable(i) {
                return Some(i);
            }
            i = i + 1;
        }
        None
    }

    /// The last selectable index before `before`.
    fn scan_backward(&self, before: usize) -> (r: Option<usize>)
        ensures
            opt_int(r) == prev_selectable_before(self.items@, before as int),
    {
        let mut i = if before > self.items.len() {
            self.items.len()
        } else {
            before
        };
        while i > 0
            invariant
                i <= self.items@.len(),
                prev_selectable_before(self.items@, before as int) == prev_selectable_before(
                    self.items@,
                    i as int,
                ),
            decreases i,
        {
            if self.is_selectable(i - 1) {
                return Some(i - 1);
            }
            i = i - 1;
        }
        None
    }

    /// The focus that "down" moves to.
    pub fn next_selectable_index(&self, current: Option<usize>) -> (r: Option<usize>)
        ensures
            opt_int(r) == next_focus(self.items@, current),
    {
        match current {
            None => self.scan_forward(0),
            Some(c) => {
                let after = if c < self.items.len() {
                    self.scan_forward(c + 1)
                } else {
                    None
                };
                match after {
                    Some(i) => Some(i),
                    None => self.scan_forward(0),
                }
            },
        }
    }

    /// The focus that "up" moves to.
    pub fn prev_selectable_index(&self, current: Option<usize>) -> (r: Option<usize>)
        ensures
            opt_int(r) == prev_focus(self.items@, current),
    {
        match current {
            None => self.scan_backward(self.items.len()),
            Some(c) => match self.scan_backward(c) {
                Some(i) => Some(i),
                None => self.scan_backward(self.items.len()),
            },
        }
    }

    /// The first selectable index.
    pub fn first_selectable_index(&self) -> (r: Option<usize>)
        ensures
            opt_int(r) == first_selectable(self.items@),
    {
        self.scan_forward(0)
    }

    /// The last selectable index.
    pub fn last_selectable_index(&self) -> (r: Option<usize>)
        ensures
            opt_int(r) == last_selectable(self.items@),
    {
        self.scan_backward(self.items.len())
    }

    /// The identifier a click on item `idx` chooses; separators and disabled
    /// items ignore clicks.
    pub fn item_click(&self, idx: usize) -> (r: Option<&String>)
        requires
            idx < self.items@.len(),
        ensures
            r == (if selectable(self.items@, idx as int) {
                Some(&self.items@[idx as int].id)
            } else {
                None
            }),
    {
        if self.items[idx].is_separator || self.items[idx].disabled {
            None
        } else {
            Some(&self.items[idx].id)
        }
    }

    /// What a key press does: escape closes; enter or space chooses the
    /// focused item when it is selectable; down, up, home and end move the
    /// focus (also spelled arrowdown and arrowup); other keys do nothing.
    pub fn key_action(&self, key: &str) -> (a: MenuKeyAction)
        ensures
            menu_key_spec(key@) == MenuKey::Escape ==> a is Close,
            menu_key_spec(key@) == MenuKey::Choose ==> match self.focused_index {
                Some(i) => if selectable(self.items@, i as int) {
                    a matches MenuKeyAction::Select(id) && id@ == self.items@[i as int].id@
                } else {
                    a is Nothing
                },
                None => a is Nothing,
            },
            menu_key_spec(key@) == MenuKey::Down ==> (a matches MenuKeyAction::FocusChange(f)
                && opt_int(f) == next_focus(self.items@, self.focused_index)),
            menu_key_spec(key@) == MenuKey::Up ==> (a matches MenuKeyAction::FocusChange(f)
                && opt_int(f) == prev_focus(self.items@, self.focused_index)),
            menu_key_spec(key@) == MenuKey::Home ==> (a matches MenuKeyAction::FocusChange(f)
                && opt_int(f) == first_selectable(self.items@)),
            menu_key_spec(key@) == MenuKey::End ==> (a matches MenuKeyAction::FocusChange(f)
                && opt_int(f) == last_selectable(self.items@)),
            menu_key_spec(key@) == MenuKey::Other ==> a is Nothing,
    {
        match menu_key(key) {
            MenuKey::Escape => MenuKeyAction::Close,
            MenuKey::Choose => match self.focused_index {
                Some(i) => {
                    if i < self.items.len() && self.is_selectable(i) {
                        MenuKeyAction::Select(self.items[i].id.clone())
                    } else {
                        MenuKeyAction::Nothing
                    }
                },
                None => MenuKeyAction::Nothing,
            },
            MenuKey::Down => MenuKeyAction::FocusChange(self.next_selectable_index(self.focused_index)),
            MenuKey::Up => MenuKeyAction::FocusChange(self.prev_selectable_index(self.focused_index)),
            MenuKey::Home => MenuKeyAction::FocusChange(self.first_selectable_index()),
            MenuKey::End => MenuKeyAction::FocusChange(self.last_selectable_index()),
            MenuKey::Other => MenuKeyAction::Nothing,
        }
    }
}

/// The keys a menu reacts to.
#[derive(Debug, Clone, Copy, PartialEq, Eq, Structural)]
pub enum MenuKey {
    Escape,
    Choose,
    Down,
    Up,
    Home,
    End,
    Other,
}

/// Escape; enter or space; down or arrowdown; up or arrowup; home; end; anything else.
pub open spec fn menu_key_spec(key: Seq<char>) -> MenuKey {
    if key == "escape"@ {
        MenuKey::Escape
    } else if key == "enter"@ || key == " "@ {
        MenuKey::Choose
    } else if key == "down"@ || key == "arrowdown"@ {
        MenuKey::Down
    } else if key == "up"@ || key == "arrowup"@ {
        MenuKey::Up
    } else if key == "home"@ {
        MenuKey::Home
    } else if key == "end"@ {
        MenuKey::End
    } else {
        MenuKey::Other
    }
}

/// Which menu key `key` names.
pub fn menu_key(key: &str) -> (k: MenuKey)
    ensures
        k == menu_key_spec(key@),
{
    if str_eq(key, "escape") {
        MenuKey::Escape
    } else if str_eq(key, "enter") || str_eq(key, " ") {
        MenuKey::Choose
    } else if str_eq(key, "down") || str_eq(key, "arrowdown") {
        MenuKey::Down
    } else if str_eq(key, "up") || str_eq(key, "arrowup") {
        MenuKey::Up
    } else if str_eq(key, "home") {
        MenuKey::Home
    } else if str_eq(key, "end") {
        MenuKey::End
    } else {
        MenuKey::Other
    }
}

/// Law: "down" always lands on a selectable item when the menu has one, and
/// finds none otherwise.
pub proof fn lemma_next_focus_selectable(items: Seq<MenuItem>, current: Option<usize>)
    ensures
        next_focus(items, current) matches Some(j) ==> selectable(items, j),
        next_focus(items, current) is None <==> forall|k: int| !selectable(items, k),
{
    lemma_next_selectable_from(items, 0);
    if let Some(c) = current {
        lemma_next_selectable_from(items, c + 1);
    }
}

/// Law: "up" always lands on a selectable item when the menu has one, and
/// finds none otherwise.
pub proof fn lemma_prev_focus_selectable(items: Seq<MenuItem>, current: Option<usize>)
    ensures
        prev_focus(items, current) matches Some(j) ==> selectable(items, j),
        prev_focus(items, current) is None <==> forall|k: int| !selectable(items, k),
{
    lemma_prev_selectable_before(items, items.len() as int);
    if let Some(c) = current {
        if c <= items.len() {
            lemma_prev_selectable_before(items, c as int);
        } else {
            lemma_prev_selectable_before(items, items.len() as int);
        }
    }
}

/// Law: from a selectable item, "down" then "up" comes back to it, and so
/// does "up" then "down".
pub proof fn lemma_down_up_round_trip(items: Seq<MenuItem>, c: usize)
    requires
        selectable(items, c as int),
    ensures
        match next_focus(items, Some(c)) {
            Some(n) => n <= usize::MAX ==> prev_focus(items, Some(n as usize)) == Some(c as int),
            None => false,
        },
        match prev_focus(items, Some(c)) {
            Some(p) => p <= usize::MAX ==> next_focus(items, Some(p as usize)) == Some(c as int),
            None => false,
        },
{
    lemma_next_selectable_from(items, 0);
    lemma_next_selectable_from(items, c + 1);
    lemma_prev_selectable_before(items, items.len() as int);
    lemma_prev_selectable_before(items, c as int);
    if let Some(n) = next_focus(items, Some(c)) {
        lemma_prev_selectable_before(items, n);
        lemma_next_selectable_from(items, n + 1);
        if n > c {
            assert(prev_selectable_before(items, n) == Some(c as int)) by {
                lemma_prev_selectable_before(items, n);
                if let Some(j) = prev_selectable_before(items, n) {
                    assert(j == c);
                }
            }
        } else {
            assert(forall|k: int| c < k < items.len() ==> !selectable(items, k));
            assert(last_selectable(items) == Some(c as int));
            assert(prev_selectable_before(items, n) is None);
        }
    }
    if let Some(p) = prev_focus(items, Some(c)) {
        lemma_next_selectable_from(items, p + 1);
        lemma_prev_selectable_before(items, p);
        if p < c {
            assert(next_selectable_from(items, p + 1) == Some(c as int));
        } else {
            assert(first_selectable(items) == Some(c as int));
            assert(next_selectable_from(items, p + 1) is None);
        }
    }
}

/// A top-level entry of a menu bar and its dropdown items.
pub struct MenuBarItem {
    /// Identifier of the dropdown.
    pub id: String,
    /// Title shown in the bar.
    pub label: String,
    /// The dropdown's items.
    pub items: Vec<MenuItem>,
}

impl MenuBarItem {
    /// An entry with no items yet.
    pub fn new(id: &str, label: &str) -> (m: MenuBarItem)
        ensures
            m.id@ == id@,
            m.label@ == label@,
            m.items@.len() == 0,
    {
        MenuBarItem { id: id.to_owned(), label: label.to_owned(), items: Vec::new() }
    }

    /// Sets the dropdown's items.
    pub fn with_items(self, items: Vec<MenuItem>) -> (m: MenuBarItem)
        ensures
            m.id == self.id && m.label == self.label && m.items == items,
    {
        MenuBarItem { id: self.id, label: self.label, items }
    }

    /// The dropdown's identifier.
    pub fn id(&self) -> (r: &String)
        ensures
            r == &self.id,
    {
        &self.id
    }

    /// The title.
    pub fn label(&self) -> (r: &String)
        ensures
            r == &self.label,
    {
        &self.label
    }

    /// The dropdown's items.
    pub fn items(&self) -> (r: &[MenuItem])
        ensures
            r@ == self.items@,
    {
        self.items.as_slice()
    }
}

/// A horizontal bar of dropdowns, at most one of them open.
pub struct MenuBar {
    /// The entries.
    pub items: Vec<MenuBarItem>,
    /// Identifier of the open dropdown.
    pub active_menu: Option<String>,
}

/// The open dropdown after clicking entry `id`: clicking the open one closes
/// it, clicking another opens that one.
pub open spec fn toggled_menu(active: Option<Seq<char>>, id: Seq<char>) -> Option<Seq<char>> {
    if active == Some(id) {
        None
    } else {
        Some(id)
    }
}

/// An optional string as seen by specifications.
pub open spec fn opt_view(o: Option<String>) -> Option<Seq<char>> {
    match o {
        Some(s) => Some(s@),
        None => None,
    }
}

impl MenuBar {
    /// A bar with these entries, none open.
    pub fn new(items: Vec<MenuBarItem>) -> (b: MenuBar)
        ensures
            b.items == items,
            b.active_menu is None,
    {
        MenuBar { items, active_menu: None }
    }

    /// Sets the open dropdown.
    pub fn active_menu(self, id: Option<String>) -> (b: MenuBar)
        ensures
            b.items == self.items,
            b.active_menu == id,
    {
        MenuBar { items: self.items, active_menu: id }
    }

    /// The entries.
    pub fn items(&self) -> (r: &[MenuBarItem])
        ensures
            r@ == self.items@,
    {
        self.items.as_slice()
    }

    /// The open dropdown's identifier.
    pub fn get_active_menu(&self) -> (r: Option<&String>)
        ensures
            match (r, self.active_menu) {
                (Some(a), Some(b)) => *a == b,
                (None, None) => true,
                _ => false,
            },
    {
        self.active_menu.as_ref()
    }

    /// Whether entry `id` is the open one.
    pub fn is_open(&self, id: &str) -> (r: bool)
        ensures
            r == (opt_view(self.active_menu) == Some(id@)),
    {
        match &self.active_menu {
            Some(a) => str_eq(a.as_str(), id),
            None => false,
        }
    }

    /// The open dropdown after a click on entry `id`.
    pub fn toggle_target(&self, id: &str) -> (r: Option<String>)
        ensures
            opt_view(r) == toggled_menu(opt_view(self.active_menu), id@),
    {
        if self.is_open(id) {
            None
        } else {
            Some(id.to_owned())
        }
    }
}

/// Law: clicking the same bar entry twice restores what was open before,
/// when that was nothing or that entry.
pub proof fn lemma_toggle_twice(active: Option<Seq<char>>, id: Seq<char>)
    requires
        active is None || active == Some(id),
    ensures
        toggled_menu(toggled_menu(active, id), id) == active,
{
}

/// Law: the keys that move the focus down are exactly `down` and
/// `arrowdown`, those that move it up exactly `up` and `arrowup`; enter and
/// space choose, escape closes, home and end jump to the ends.
pub proof fn lemma_menu_key_names(key: Seq<char>)
    ensures
        menu_key_spec(key) == MenuKey::Down <==> (key == "down"@ || key == "arrowdown"@),
        menu_key_spec(key) == MenuKey::Up <==> (key == "up"@ || key == "arrowup"@),
        menu_key_spec(key) == MenuKey::Choose <==> (key == "enter"@ || key == " "@),
        menu_key_spec(key) == MenuKey::Escape <==> key == "escape"@,
        menu_key_spec(key) == MenuKey::Home <==> key == "home"@,
        menu_key_spec(key) == MenuKey::End <==> key == "end"@,
{
    reveal_strlit("escape");
    reveal_strlit("enter");
    reveal_strlit(" ");
    reveal_strlit("down");
    reveal_strlit("arrowdown");
    reveal_strlit("up");
    reveal_strlit("arrowup");
    reveal_strlit("home");
    reveal_strlit("end");
    assert("escape"@.len() == 6 && "enter"@.len() == 5 && " "@.len() == 1);
    assert("down"@.len() == 4 && "arrowdown"@.len() == 9 && "up"@.len() == 2);
    assert("arrowup"@.len() == 7 && "home"@.len() == 4 && "end"@.len() == 3);
    assert("down"@[0] == 'd' && "home"@[0] == 'h');
}

} // verus!
