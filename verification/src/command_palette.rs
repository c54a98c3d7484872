//! The command palette: a list of commands filtered by a typed query.

use vstd::prelude::*;
use vstd::math::min;
use vstd::utf8::is_ascii_chars;
use crate::text::{ascii_lower, chars_of};

verus! {

/// What `str::to_lowercase` makes of a text: the Unicode lowercase mapping.
pub uninterp spec fn lowercase(s: Seq<char>) -> Seq<char>;

/// `str::to_lowercase`; its result depends on the text alone and is named by
/// `lowercase`. Of the Unicode mapping only its ASCII part is stated: an ASCII
/// text is lowercased character by character, `A`-`Z` to `a`-`z` (so the empty
/// text stays empty); what it does to other characters is left unsaid.
#[verifier::external_body]
pub(crate) fn to_lowercase(s: &str) -> (r: String)
    ensures
        r@ == lowercase(s@),
        is_ascii_chars(s@) ==> r@ == s@.map_values(|c: char| ascii_lower(c)),
{
    s.to_lowercase()
}

/// `needle` occurs somewhere in `hay` (the empty text occurs everywhere).
pub open spec fn occurs_in(needle: Seq<char>, hay: Seq<char>) -> bool {
    exists|k: int|
        0 <= k && k + needle.len() <= hay.len() && #[trigger] hay.subrange(k, k + needle.len())
            == needle
}

/// Whether `needle` occurs in `hay`.
pub fn text_contains(hay: &Vec<char>, needle: &Vec<char>) -> (r: bool)
    ensures
        r == occurs_in(needle@, hay@),
{
    let n = needle.len();
    let h = hay.len();
    if n > h {
        assert(!occurs_in(needle@, hay@));
        return false;
    }
    let mut k: usize = 0;
    while k <= h - n
        invariant
            n == needle@.len(),
            h == hay@.len(),
            n <= h,
            k <= h - n + 1,
            forall|j: int| 0 <= j < k ==> #[trigger] hay@.subrange(j, j + n) != needle@,
        decreases h - n + 1 - k,
    {
        let mut i: usize = 0;
        let mut same = true;
        while i < n
            invariant
                n == needle@.len(),
                h == hay@.len(),
                k + n <= h,
                i <= n,
                same == forall|j: int| 0 <= j < i ==> hay@[k + j] == needle@[j],
            decreases n - i,
        {
            if hay[k + i] != needle[i] {
                same = false;
            }
            i = i + 1;
        }
        if same {
            assert(hay@.subrange(k as int, k + n) =~= needle@);
            return true;
        }
        assert(hay@.subrange(k as int, k + n) != needle@) by {
            let j = choose|j: int| 0 <= j < n && hay@[k + j] != needle@[j];
            assert(hay@.subrange(k as int, k + n)[j] == hay@[k + j]);
        }
        k = k + 1;
    }
    assert forall|j: int| 0 <= j && j + n <= h implies #[trigger] hay@.subrange(j, j + n) != needle@ by {}
    false
}

/// One command.
pub struct CommandItem {
    /// Identifier of the command.
    pub id: String,
    /// Text the query is matched against.
    pub label: String,
    /// Keyboard shortcut shown beside it.
    pub shortcut: Option<String>,
    /// Group heading it is listed under.
    pub category: Option<String>,
    /// Icon shown before it.
    pub icon: Option<String>,
    /// Whether it is greyed out.
    pub disabled: bool,
}

impl CommandItem {
    /// An enabled command without shortcut, category or icon.
    pub fn new(id: &str, label: &str) -> (c: CommandItem)
        ensures
            c.id@ == id@ && c.label@ == label@,
            c.shortcut is None && c.category is None && c.icon is None,
            !c.disabled,
    {
        CommandItem {
            id: id.to_owned(),
            label: label.to_owned(),
            shortcut: None,
            category: None,
            icon: None,
            disabled: false,
        }
    }

    /// Sets the shortcut.
    pub fn shortcut(self, shortcut: &str) -> (c: CommandItem)
        ensures
            c.shortcut matches Some(s) && s@ == shortcut@,
            c.id == self.id && c.label == self.label && c.category == self.category,
            c.icon == self.icon && c.disabled == self.disabled,
    {
        CommandItem { shortcut: Some(shortcut.to_owned()), ..self }
    }

    /// Sets the category.
    pub fn category(self, category: &str) -> (c: CommandItem)
        ensures
            c.category matches Some(s) && s@ == category@,
            c.id == self.id && c.label == self.label && c.shortcut == self.shortcut,
            c.icon == self.icon && c.disabled == self.disabled,
    {
        CommandItem { category: Some(category.to_owned()), ..self }
    }

    /// Sets the icon.
    pub fn icon(self, icon: &str) -> (c: CommandItem)
        ensures
            c.icon matches Some(s) && s@ == icon@,
            c.id == self.id && c.label == self.label && c.shortcut == self.shortcut,
            c.category == self.category && c.disabled == self.disabled,
    {
        CommandItem { icon: Some(icon.to_owned()), ..self }
    }

    /// Greys the command out or not.
    pub fn disabled(self, disabled: bool) -> (c: CommandItem)
        ensures
            c == (CommandItem { disabled, ..self }),
    {
        CommandItem { disabled, ..self }
    }
}

/// The palette: its commands, the query typed so far and the highlighted row.
pub struct CommandPalette {
    /// Identifier of the palette.
    pub id: String,
    /// All commands.
    pub items: Vec<CommandItem>,
    /// Text shown while the query is empty.
    pub placeholder: String,
    /// The query typed so far.
    pub query: String,
    /// Index (into `items`) of the highlighted command.
    pub selected_index: usize,
    /// Most commands listed at once.
    pub max_visible: usize,
}

/// A command `label` is listed for the lowercased query `q` when `q` is empty
/// or occurs in the lowercased label.
pub open spec fn item_matches(label: Seq<char>, q: Seq<char>) -> bool {
    q.len() == 0 || occurs_in(q, lowercase(label))
}

/// A listed command: its index in `items`, and the category heading shown
/// just above it, if any.
pub struct PaletteRow {
    /// Index of the command.
    pub index: usize,
    /// Heading shown above the command.
    pub header: Option<String>,
}

/// How a listed command is drawn.
#[derive(Debug, Clone, Copy, PartialEq, Eq, Structural)]
pub enum PaletteRowLook {
    /// The highlighted command.
    Selected,
    /// A disabled command, dimmed.
    Disabled,
    /// Any other command.
    Plain,
}

/// A listed row as seen by specifications.
pub open spec fn row_view(r: PaletteRow) -> (int, Option<Seq<char>>) {
    (r.index as int, match r.header {
        Some(h) => Some(h@),
        None => None,
    })
}

/// The rows listed from command `i` on, after `shown` rows and with `cat` the
/// last heading shown: matching commands in order, at most `max` rows in all;
/// a command with a category gets a heading when that category differs from
/// the last heading.
pub open spec fn palette_rows(
    items: Seq<CommandItem>,
    q: Seq<char>,
    max: int,
    i: int,
    shown: int,
    cat: Option<Seq<char>>,
) -> Seq<(int, Option<Seq<char>>)>
    decreases items.len() - i,
{
    if i < 0 || i >= items.len() {
        Seq::empty()
    } else if !item_matches(items[i].label@, q) {
        palette_rows(items, q, max, i + 1, shown, cat)
    } else if shown >= max {
        Seq::empty()
    } else {
        match items[i].category {
            Some(c) => if cat != Some(c@) {
                seq![(i, Some(c@))] + palette_rows(items, q, max, i + 1, shown + 1, Some(c@))
            } else {
                seq![(i, None::<Seq<char>>)] + palette_rows(items, q, max, i + 1, shown + 1, cat)
            },
            None => seq![(i, None::<Seq<char>>)] + palette_rows(items, q, max, i + 1, shown + 1, cat),
        }
    }
}

/// An optional string as seen by specifications.
pub open spec fn opt_str(o: Option<String>) -> Option<Seq<char>> {
    match o {
        Some(s) => Some(s@),
        None => None,
    }
}

impl CommandPalette {
    /// A palette over `items` with an empty query, the first row highlighted
    /// and at most 10 rows listed.
    pub fn new(id: &str, items: Vec<CommandItem>) -> (p: CommandPalette)
        ensures
            p.id@ == id@,
            p.items == items,
            p.placeholder@ == "Type a command..."@,
            p.query@ == ""@,
            p.selected_index == 0,
            p.max_visible == 10,
    {
        CommandPalette {
            id: id.to_owned(),
            items,
            placeholder: "Type a command...".to_owned(),
            query: "".to_owned(),
            selected_index: 0,
            max_visible: 10,
        }
    }

    /// Sets the placeholder.
    pub fn placeholder(self, placeholder: &str) -> (p: CommandPalette)
        ensures
            p.placeholder@ == placeholder@,
            p.items == self.items && p.query == self.query,
            p.selected_index == self.selected_index && p.max_visible == self.max_visible,
    {
        CommandPalette { placeholder: placeholder.to_owned(), ..self }
    }

    /// Sets the query.
    pub fn query(self, query: &str) -> (p: CommandPalette)
        ensures
            p.query@ == query@,
            p.items == self.items && p.placeholder == self.placeholder,
            p.selected_index == self.selected_index && p.max_visible == self.max_visible,
    {
        CommandPalette { query: query.to_owned(), ..self }
    }

    /// Highlights command `index`.
    pub fn selected_index(self, index: usize) -> (p: CommandPalette)
        ensures
            p == (CommandPalette { selected_index: index, ..self }),
    {
        CommandPalette { selected_index: index, ..self }
    }

    /// Sets how many rows are listed at most.
    pub fn max_visible(self, max: usize) -> (p: CommandPalette)
        ensures
            p == (CommandPalette { max_visible: max, ..self }),
    {
        CommandPalette { max_visible: max, ..self }
    }

    /// The text of the search field: the query, or the placeholder while
    /// the query is empty.
    pub fn input_text(&self) -> (t: &String)
        ensures
            self.query@.len() > 0 ==> t == &self.query,
            self.query@.len() == 0 ==> t == &self.placeholder,
    {
        if self.query.as_str().is_empty() {
            &self.placeholder
        } else {
            &self.query
        }
    }

    /// How the row of command `idx` is drawn: the highlighted command first,
    /// then disabled commands dimmed.
    pub fn row_look(&self, idx: usize) -> (l: PaletteRowLook)
        requires
            idx < self.items@.len(),
        ensures
            l == (if idx == self.selected_index {
                PaletteRowLook::Selected
            } else if self.items@[idx as int].disabled {
                PaletteRowLook::Disabled
            } else {
                PaletteRowLook::Plain
            }),
    {
        if idx == self.selected_index {
            PaletteRowLook::Selected
        } else if self.items[idx].disabled {
            PaletteRowLook::Disabled
        } else {
            PaletteRowLook::Plain
        }
    }

    /// The rows the palette lists for its query; with an empty query, the
    /// first `max_visible` commands in order.
    pub fn visible_rows(&self) -> (rows: Vec<PaletteRow>)
        ensures
            rows@.map_values(|r: PaletteRow| row_view(r)) == palette_rows(
                self.items@,
                lowercase(self.query@),
                self.max_visible as int,
                0,
                0,
                None,
            ),
            self.query@.len() == 0 ==> {
                &&& rows@.len() == min(self.max_visible as int, self.items@.len() as int)
                &&& forall|k: int| 0 <= k < rows@.len() ==> #[trigger] rows@[k].index == k
            },
    {
        let q_string = to_lowercase(self.query.as_str());
        proof {
            if self.query@.len() == 0 {
                assert(q_string@ =~= Seq::<char>::empty());
                lemma_empty_query_lists_all(
                    self.items@,
                    q_string@,
                    self.max_visible as int,
                    0,
                    0,
                    None,
                );
            }
        }
        let q = chars_of(q_string.as_str());
        let ghost qs = q@;
        let ghost total = palette_rows(self.items@, qs, self.max_visible as int, 0, 0, None);
        let mut rows: Vec<PaletteRow> = Vec::new();
        let mut shown: usize = 0;
        let mut cat: Option<String> = None;
        let mut i: usize = 0;
        while i < self.items.len()
            invariant
                i <= self.items@.len(),
                q@ == qs,
                qs == lowercase(self.query@),
                shown <= i,
                shown <= self.max_visible,
                total == palette_rows(self.items@, qs, self.max_visible as int, 0, 0, None),
                self.query@.len() == 0 ==> {
                    &&& total.len() == min(self.max_visible as int, self.items@.len() as int)
                    &&& forall|k: int| 0 <= k < total.len() ==> (#[trigger] total[k]).0 == k
                },
                rows@.map_values(|r: PaletteRow| row_view(r)) + palette_rows(
                    self.items@,
                    qs,
                    self.max_visible as int,
                    i as int,
                    shown as int,
                    opt_str(cat),
                ) == total,
            decreases self.items@.len() - i,
        {
            let ghost before = rows@.map_values(|r: PaletteRow| row_view(r));
            let item = &self.items[i];
            let lower_string = to_lowercase(item.label.as_str());
            let lower = chars_of(lower_string.as_str());
            let matched = q.len() == 0 || text_contains(&lower, &q);
            if !matched {
                i = i + 1;
            } else if shown >= self.max_visible {
                assert(palette_rows(self.items@, qs, self.max_visible as int, i as int, shown as int, opt_str(cat)) =~= Seq::empty());
                assert(before =~= total);
                proof {
                    if self.query@.len() == 0 {
                        assert forall|k: int| 0 <= k < rows@.len() implies #[trigger] rows@[k].index == k by {
                            assert(rows@.map_values(|r: PaletteRow| row_view(r))[k] == row_view(rows@[k]));
                            assert(total[k].0 == k);
                        }
                    }
                }
                return rows;
            } else {
                let header = match &item.category {
                    Some(c) => {
                        let differs = match &cat {
                            Some(cur) => !crate::text::str_eq(cur.as_str(), c.as_str()),
                            None => true,
                        };
                        if differs {
                            cat = Some(c.clone());
                            Some(c.clone())
                        } else {
                            None
                        }
                    },
                    None => None,
                };
                rows.push(PaletteRow { index: i, header });
                assert(rows@.map_values(|r: PaletteRow| row_view(r)) =~= before.push(row_view(rows@.last())));
                shown = shown + 1;
                i = i + 1;
            }
        }
        assert(palette_rows(self.items@, qs, self.max_visible as int, i as int, shown as int, opt_str(cat)) =~= Seq::empty());
        assert(rows@.map_values(|r: PaletteRow| row_view(r)) =~= total);
        proof {
            if self.query@.len() == 0 {
                assert forall|k: int| 0 <= k < rows@.len() implies #[trigger] rows@[k].index == k by {
                    assert(rows@.map_values(|r: PaletteRow| row_view(r))[k] == row_view(rows@[k]));
                            assert(total[k].0 == k);
                }
            }
        }
        rows
    }
}

/// Law: the palette lists at most `max` rows, each one a command that
/// matches the query, in increasing order of index.
pub proof fn lemma_palette_rows_sound(
    items: Seq<CommandItem>,
    q: Seq<char>,
    max: int,
    i: int,
    shown: int,
    cat: Option<Seq<char>>,
)
    requires
        0 <= i,
        0 <= shown <= max,
    ensures
        shown + palette_rows(items, q, max, i, shown, cat).len() <= max,
        forall|k: int| 0 <= k < palette_rows(items, q, max, i, shown, cat).len() ==> {
            let j = #[trigger] palette_rows(items, q, max, i, shown, cat)[k].0;
            &&& i <= j < items.len()
            &&& item_matches(items[j].label@, q)
        },
        forall|k: int, l: int|
            0 <= k < l < palette_rows(items, q, max, i, shown, cat).len() ==> palette_rows(
                items,
                q,
                max,
                i,
                shown,
                cat,
            )[k].0 < palette_rows(items, q, max, i, shown, cat)[l].0,
    decreases items.len() - i,
{
    if i >= items.len() {
    } else if !item_matches(items[i].label@, q) {
        lemma_palette_rows_sound(items, q, max, i + 1, shown, cat);
    } else if shown >= max {
    } else {
        let next_cat = match items[i].category {
            Some(c) => if cat != Some(c@) { Some(c@) } else { cat },
            None => cat,
        };
        lemma_palette_rows_sound(items, q, max, i + 1, shown + 1, next_cat);
    }
}

/// Law: with an empty query every command matches, so the rows from command
/// `i` on, after `shown` rows, are the next commands in order until `max` rows
/// are shown or the commands run out.
pub proof fn lemma_empty_query_lists_all(
    items: Seq<CommandItem>,
    q: Seq<char>,
    max: int,
    i: int,
    shown: int,
    cat: Option<Seq<char>>,
)
    requires
        q.len() == 0,
        0 <= i <= items.len(),
        0 <= shown <= max,
    ensures
        palette_rows(items, q, max, i, shown, cat).len() == min(max - shown, items.len() - i),
        forall|k: int|
            0 <= k < palette_rows(items, q, max, i, shown, cat).len() ==> (#[trigger] palette_rows(
                items,
                q,
                max,
                i,
                shown,
                cat,
            )[k]).0 == i + k,
    decreases items.len() - i,
{
    if i >= items.len() || shown >= max {
    } else {
        let next_cat = match items[i].category {
            Some(c) => if cat != Some(c@) { Some(c@) } else { cat },
            None => cat,
        };
        lemma_empty_query_lists_all(items, q, max, i + 1, shown + 1, next_cat);
        let rest = palette_rows(items, q, max, i + 1, shown + 1, next_cat);
        let all = palette_rows(items, q, max, i, shown, cat);
        assert forall|k: int| 0 <= k < all.len() implies (#[trigger] all[k]).0 == i + k by {
            if k > 0 {
                assert(all[k] == rest[k - 1]);
            }
        }
    }
}

/// Law: `occurs_in` is containment at any position: every stretch of a text,
/// at its start, in its middle or at its end, occurs in it; in particular a
/// text occurs in itself and so does each of its prefixes.
pub proof fn lemma_every_stretch_occurs(hay: Seq<char>, i: int, j: int)
    requires
        0 <= i <= j <= hay.len(),
    ensures
        occurs_in(hay.subrange(i, j), hay),
        occurs_in(hay, hay),
        occurs_in(hay.take(j), hay),
{
    let whole = hay;
    let start = hay.take(j);
    assert(hay.subrange(i, i + hay.subrange(i, j).len()) == hay.subrange(i, j));
    assert(hay.subrange(0int, 0int + whole.len()) =~= whole);
    assert(hay.subrange(0int, 0int + start.len()) =~= start);
}

/// Law: no command that matches the query is left out while there is room:
/// when fewer than `max` rows are listed from command `i` on (after `shown`
/// rows), every command from `i` on whose lowercased label contains the
/// query, at any position, is among them.
pub proof fn lemma_palette_rows_complete(
    items: Seq<CommandItem>,
    q: Seq<char>,
    max: int,
    i: int,
    shown: int,
    cat: Option<Seq<char>>,
    j: int,
)
    requires
        0 <= i <= j < items.len(),
        0 <= shown,
        item_matches(items[j].label@, q),
        shown + palette_rows(items, q, max, i, shown, cat).len() < max,
    ensures
        exists|k: int|
            0 <= k < palette_rows(items, q, max, i, shown, cat).len() && (#[trigger] palette_rows(
                items,
                q,
                max,
                i,
                shown,
                cat,
            )[k]).0 == j,
    decreases items.len() - i,
{
    let all = palette_rows(items, q, max, i, shown, cat);
    if !item_matches(items[i].label@, q) {
        lemma_palette_rows_complete(items, q, max, i + 1, shown, cat, j);
    } else {
        assert(shown < max);
        if i == j {
            assert(all[0].0 == j);
        } else {
            let next_cat = match items[i].category {
                Some(c) => if cat != Some(c@) { Some(c@) } else { cat },
                None => cat,
            };
            let rest = palette_rows(items, q, max, i + 1, shown + 1, next_cat);
            assert(all.len() == rest.len() + 1);
            lemma_palette_rows_complete(items, q, max, i + 1, shown + 1, next_cat, j);
            let k = choose|k: int| 0 <= k < rest.len() && (#[trigger] rest[k]).0 == j;
            assert(all[k + 1] == rest[k]);
        }
    }
}

} // verus!
