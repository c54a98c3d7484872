//! Tables: sorting by a column, row selection and pagination.

use vstd::prelude::*;
use std::collections::HashSet;
use crate::text::{str_eq, append_str, decimal, decimal_chars, string_from_chars};

verus! {

broadcast use vstd::std_specs::hash::group_hash_axioms;

/// The order rows are sorted in.
#[derive(Debug, Clone, Copy, PartialEq, Eq, Structural)]
pub enum SortDirection {
    Ascending,
    Descending,
}

impl SortDirection {
    /// The other direction.
    pub open spec fn flipped(self) -> SortDirection {
        match self {
            SortDirection::Ascending => SortDirection::Descending,
            SortDirection::Descending => SortDirection::Ascending,
        }
    }

    /// The other direction.
    pub fn toggle(&self) -> (d: SortDirection)
        ensures
            d == self.flipped(),
    {
        match self {
            SortDirection::Ascending => SortDirection::Descending,
            SortDirection::Descending => SortDirection::Ascending,
        }
    }
}

/// Law: toggling the sort direction changes it, and toggling twice gives it
/// back.
pub proof fn lemma_toggle_involution(d: SortDirection)
    ensures
        d.flipped() != d,
        d.flipped().flipped() == d,
{
}

/// The column a table is sorted by, and in which direction.
pub struct SortState {
    /// Identifier of the sorted column.
    pub column_id: String,
    /// Sort order.
    pub direction: SortDirection,
}

/// The direction of `column` in the current sort, if it is the sorted column.
pub open spec fn column_direction(current: Option<(Seq<char>, SortDirection)>, column: Seq<char>) -> Option<SortDirection> {
    match current {
        Some((c, d)) => if c == column { Some(d) } else { None },
        None => None,
    }
}

/// The direction a click on a column header asks for: descending when the
/// column is sorted ascending, ascending otherwise.
pub open spec fn clicked_direction(current: Option<(Seq<char>, SortDirection)>, column: Seq<char>) -> SortDirection {
    match column_direction(current, column) {
        Some(SortDirection::Ascending) => SortDirection::Descending,
        _ => SortDirection::Ascending,
    }
}

/// The sort as seen by specifications.
pub open spec fn sort_view(s: Option<&SortState>) -> Option<(Seq<char>, SortDirection)> {
    match s {
        Some(s) => Some((s.column_id@, s.direction)),
        None => None,
    }
}

/// The direction `column` is sorted in, if it is the sorted column.
pub fn column_sort_direction(current: Option<&SortState>, column: &str) -> (d: Option<SortDirection>)
    ensures
        d == column_direction(sort_view(current), column@),
{
    match current {
        Some(s) => {
            if str_eq(s.column_id.as_str(), column) {
                Some(s.direction)
            } else {
                None
            }
        },
        None => None,
    }
}

/// The sort a click on the header of `column` asks for.
pub fn header_click_sort(current: Option<&SortState>, column: &str) -> (s: SortState)
    ensures
        s.column_id@ == column@,
        s.direction == clicked_direction(sort_view(current), column@),
{
    let direction = match column_sort_direction(current, column) {
        Some(SortDirection::Ascending) => SortDirection::Descending,
        _ => SortDirection::Ascending,
    };
    SortState { column_id: column.to_owned(), direction }
}

/// The arrow a header shows: up when sorted ascending, down when descending,
/// both when the column is not the sorted one.
pub fn sort_icon(direction: Option<SortDirection>) -> (s: &'static str)
    ensures
        s@ == match direction {
            Some(SortDirection::Ascending) => "\u{2191}"@,
            Some(SortDirection::Descending) => "\u{2193}"@,
            None => "\u{2195}"@,
        },
{
    match direction {
        Some(SortDirection::Ascending) => "\u{2191}",
        Some(SortDirection::Descending) => "\u{2193}",
        None => "\u{2195}",
    }
}

/// Law: clicking the same header twice from an unsorted column sorts it
/// ascending, then descending, then ascending again.
pub proof fn lemma_header_clicks_alternate(column: Seq<char>, d: SortDirection)
    ensures
        clicked_direction(None, column) == SortDirection::Ascending,
        clicked_direction(Some((column, d)), column) != d,
{
}

/// How rows can be selected.
#[derive(Debug, Clone, Copy, PartialEq, Eq, Structural)]
pub enum SelectionMode {
    /// Rows cannot be selected.
    NoSelection,
    /// At most one row is selected.
    Single,
    /// Any set of rows is selected.
    Multiple,
}

impl Default for SelectionMode {
    /// No selection.
    fn default() -> (m: SelectionMode)
        ensures
            m == SelectionMode::NoSelection,
    {
        SelectionMode::NoSelection
    }
}

/// The selection after a click on `row`: in single mode only that row; in
/// multiple mode the row flips in or out; otherwise unchanged.
pub open spec fn clicked_selection(mode: SelectionMode, selected: Set<usize>, row: usize) -> Set<usize> {
    match mode {
        SelectionMode::Single => Set::empty().insert(row),
        SelectionMode::Multiple => if selected.contains(row) {
            selected.remove(row)
        } else {
            selected.insert(row)
        },
        SelectionMode::NoSelection => selected,
    }
}

/// The selected rows after a click on `row`.
pub fn row_click_selection(mode: SelectionMode, selected: HashSet<usize>, row: usize) -> (r: HashSet<usize>)
    ensures
        r@ == clicked_selection(mode, selected@, row),
{
    let mut next = selected;
    match mode {
        SelectionMode::Single => {
            next.clear();
            next.insert(row);
        },
        SelectionMode::Multiple => {
            if next.contains(&row) {
                next.remove(&row);
            } else {
                next.insert(row);
            }
        },
        SelectionMode::NoSelection => {},
    }
    next
}

/// Law: in multiple mode, clicking a row twice restores the selection.
pub proof fn lemma_double_click_restores(selected: Set<usize>, row: usize)
    ensures
        clicked_selection(SelectionMode::Multiple, clicked_selection(SelectionMode::Multiple, selected, row), row)
            == selected,
{
    if selected.contains(row) {
        assert(selected.remove(row).insert(row) =~= selected);
    } else {
        assert(selected.insert(row).remove(row) =~= selected);
    }
}

/// Which page of rows is shown.
#[derive(Debug, Clone, Copy, PartialEq, Eq, Structural)]
pub struct PaginationState {
    /// The shown page, from 0.
    pub current_page: usize,
    /// Rows per page.
    pub page_size: usize,
    /// Number of rows in all.
    pub total_items: usize,
}

/// Number of pages: `total_items / page_size` rounded up; 0 without a page size.
pub open spec fn page_count(p: PaginationState) -> int {
    if p.page_size == 0 {
        0
    } else {
        (p.total_items + p.page_size - 1) / (p.page_size as int)
    }
}

impl Default for PaginationState {
    /// Page 0 of nothing, with no page size.
    fn default() -> (p: PaginationState)
        ensures
            p == (PaginationState { current_page: 0, page_size: 0, total_items: 0 }),
    {
        PaginationState { current_page: 0, page_size: 0, total_items: 0 }
    }
}

impl PaginationState {
    /// The number of pages.
    pub fn total_pages(&self) -> (n: usize)
        ensures
            n == page_count(*self),
    {
        if self.page_size == 0 {
            0
        } else {
            let q = self.total_items / self.page_size;
            let r = self.total_items % self.page_size;
            proof {
                let t = self.total_items as int;
                let s = self.page_size as int;
                assert(t == s * (q as int) + r) by (nonlinear_arith)
                    requires q == t / s, r == t % s, s > 0;
                assert((t + s - 1) / s == if r == 0 { q as int } else { q + 1 }) by (nonlinear_arith)
                    requires t == s * (q as int) + r, 0 <= r < s, s > 0, q >= 0;
                assert(r != 0 ==> q < usize::MAX) by (nonlinear_arith)
                    requires t == s * (q as int) + r, 0 <= r < s, s > 0, q >= 0, t <= usize::MAX;
            }
            if r == 0 {
                q
            } else {
                q + 1
            }
        }
    }

    /// The 1-based numbers of the first and last row on the shown page, as
    /// the "Showing first to last of total" line reports them.
    pub fn shown_range(&self) -> (r: (usize, usize))
        requires
            self.current_page < usize::MAX,
            (self.current_page + 1) * self.page_size <= usize::MAX,
        ensures
            r.0 == self.current_page * self.page_size + 1,
            r.1 == if (self.current_page + 1) * self.page_size <= self.total_items {
                (self.current_page + 1) * self.page_size
            } else {
                self.total_items as int
            },
    {
        proof {
            let c = self.current_page as int;
            let s = self.page_size as int;
            assert(c * s + s == (c + 1) * s) by (nonlinear_arith);
            assert(c * s + 1 <= usize::MAX) by (nonlinear_arith)
                requires (c + 1) * s <= usize::MAX, c >= 0, s >= 0, c < usize::MAX, c * s + s == (c + 1) * s;
        }
        let start = self.current_page * self.page_size + 1;
        let end_full = (self.current_page + 1) * self.page_size;
        let end = if end_full <= self.total_items { end_full } else { self.total_items };
        (start, end)
    }

    /// The page "previous" goes to, when there is one.
    pub fn prev_page(&self) -> (p: Option<usize>)
        ensures
            p == if self.current_page > 0 {
                Some((self.current_page - 1) as usize)
            } else {
                None
            },
    {
        if self.current_page > 0 {
            Some(self.current_page - 1)
        } else {
            None
        }
    }

    /// The page "next" goes to, when there is one.
    pub fn next_page(&self) -> (p: Option<usize>)
        ensures
            p == if self.current_page + 1 < page_count(*self) {
                Some((self.current_page + 1) as usize)
            } else {
                None
            },
    {
        let total = self.total_pages();
        if total > 0 && self.current_page < total - 1 {
            Some(self.current_page + 1)
        } else {
            None
        }
    }
}

impl PaginationState {
    /// The line under the table: "Showing first to last of total items".
    pub fn summary_text(&self) -> (s: String)
        requires
            self.current_page < usize::MAX,
            (self.current_page + 1) * self.page_size <= usize::MAX,
        ensures
            ({
                let first = self.current_page * self.page_size + 1;
                let last = if (self.current_page + 1) * self.page_size <= self.total_items {
                    (self.current_page + 1) * self.page_size
                } else {
                    self.total_items as int
                };
                s@ == "Showing "@ + decimal(first as nat) + " to "@ + decimal(last as nat) + " of "@
                    + decimal(self.total_items as nat) + " items"@
            }),
    {
        let (first, last) = self.shown_range();
        let mut out: Vec<char> = Vec::new();
        append_str(&mut out, "Showing ");
        let a = decimal_chars(first as u64);
        append_vec(&mut out, &a);
        append_str(&mut out, " to ");
        let b = decimal_chars(last as u64);
        append_vec(&mut out, &b);
        append_str(&mut out, " of ");
        let c = decimal_chars(self.total_items as u64);
        append_vec(&mut out, &c);
        append_str(&mut out, " items");
        string_from_chars(&out)
    }

    /// The page counter: "Page n of total", counting pages from 1.
    pub fn page_text(&self) -> (s: String)
        requires
            self.current_page < usize::MAX,
        ensures
            s@ == "Page "@ + decimal((self.current_page + 1) as nat) + " of "@ + decimal(
                page_count(*self) as nat,
            ),
    {
        let total = self.total_pages();
        let mut out: Vec<char> = Vec::new();
        append_str(&mut out, "Page ");
        let a = decimal_chars((self.current_page + 1) as u64);
        append_vec(&mut out, &a);
        append_str(&mut out, " of ");
        let b = decimal_chars(total as u64);
        append_vec(&mut out, &b);
        string_from_chars(&out)
    }
}

/// Appends the characters of `v` to `out`.
fn append_vec(out: &mut Vec<char>, v: &Vec<char>)
    ensures
        final(out)@ == old(out)@ + v@,
{
    let mut i: usize = 0;
    while i < v.len()
        invariant
            i <= v@.len(),
            out@ == old(out)@ + v@.take(i as int),
        decreases v@.len() - i,
    {
        out.push(v[i]);
        assert(v@.take(i + 1) =~= v@.take(i as int).push(v@[i as int]));
        i = i + 1;
    }
    assert(v@.take(i as int) =~= v@);
}

/// The background of a table row.
#[derive(Debug, Clone, Copy, PartialEq, Eq, Structural)]
pub enum RowBackground {
    /// The selected-row color.
    Selected,
    /// The alternate color of odd rows.
    Alternate,
    /// The ordinary row color.
    Plain,
}

/// The background of row `row`: the selection color when selected, else the
/// alternate color on odd rows when alternating, else the plain color.
pub fn row_background(row: usize, selected: bool, alternating: bool) -> (b: RowBackground)
    ensures
        b == (if selected {
            RowBackground::Selected
        } else if alternating && row % 2 != 0 {
            RowBackground::Alternate
        } else {
            RowBackground::Plain
        }),
{
    if selected {
        RowBackground::Selected
    } else if alternating && row % 2 != 0 {
        RowBackground::Alternate
    } else {
        RowBackground::Plain
    }
}

/// Law: every row belongs to some page: with a page size, the pages hold at
/// least all the rows and less than one page more.
pub proof fn lemma_pages_cover_items(p: PaginationState)
    requires
        p.page_size > 0,
    ensures
        page_count(p) * p.page_size >= p.total_items,
        (page_count(p) - 1) * p.page_size < p.total_items || p.total_items == 0,
{
    let t = p.total_items as int;
    let s = p.page_size as int;
    let n = (t + s - 1) / s;
    assert(n * s >= t && ((n - 1) * s < t || t == 0)) by (nonlinear_arith)
        requires n == (t + s - 1) / s, s > 0, t >= 0;
}

} // verus!
