use gpui_ui_kit::table::{
    column_sort_direction, header_click_sort, row_background, row_click_selection, sort_icon,
    PaginationState, RowBackground,
    SelectionMode, SortDirection, SortState,
};
use std::collections::HashSet;

#[test]
fn toggle_direction_twice_restores() {
    assert_eq!(SortDirection::Ascending.toggle(), SortDirection::Descending);
    assert_eq!(SortDirection::Descending.toggle(), SortDirection::Ascending);
    assert_eq!(SortDirection::Ascending.toggle().toggle(), SortDirection::Ascending);
}

#[test]
fn header_clicks_alternate() {
    let first = header_click_sort(None, "name");
    assert_eq!(first.column_id, "name");
    assert_eq!(first.direction, SortDirection::Ascending);
    let second = header_click_sort(Some(&first), "name");
    assert_eq!(second.direction, SortDirection::Descending);
    let third = header_click_sort(Some(&second), "name");
    assert_eq!(third.direction, SortDirection::Ascending);
    let other = header_click_sort(Some(&second), "age");
    assert_eq!(other.column_id, "age");
    assert_eq!(other.direction, SortDirection::Ascending);
}

#[test]
fn column_direction_and_icon() {
    let s = SortState { column_id: "name".to_string(), direction: SortDirection::Descending };
    assert_eq!(column_sort_direction(Some(&s), "name"), Some(SortDirection::Descending));
    assert_eq!(column_sort_direction(Some(&s), "age"), None);
    assert_eq!(column_sort_direction(None, "name"), None);
    assert_eq!(sort_icon(Some(SortDirection::Ascending)), "\u{2191}");
    assert_eq!(sort_icon(Some(SortDirection::Descending)), "\u{2193}");
    assert_eq!(sort_icon(None), "\u{2195}");
}

#[test]
fn row_clicks_by_mode() {
    let none: HashSet<usize> = HashSet::new();
    let single = row_click_selection(SelectionMode::Single, HashSet::from([1, 2]), 5);
    assert_eq!(single, HashSet::from([5]));
    let multi = row_click_selection(SelectionMode::Multiple, HashSet::from([1]), 3);
    assert_eq!(multi, HashSet::from([1, 3]));
    let back = row_click_selection(SelectionMode::Multiple, multi, 3);
    assert_eq!(back, HashSet::from([1]));
    let unchanged = row_click_selection(SelectionMode::NoSelection, none.clone(), 4);
    assert_eq!(unchanged, none);
    assert_eq!(SelectionMode::default(), SelectionMode::NoSelection);
}

#[test]
fn pagination() {
    let p = PaginationState { current_page: 0, page_size: 10, total_items: 25 };
    assert_eq!(p.total_pages(), 3);
    assert_eq!(p.shown_range(), (1, 10));
    assert_eq!(p.prev_page(), None);
    assert_eq!(p.next_page(), Some(1));
    let last = PaginationState { current_page: 2, ..p };
    assert_eq!(last.shown_range(), (21, 25));
    assert_eq!(last.next_page(), None);
    assert_eq!(last.prev_page(), Some(1));
    let exact = PaginationState { current_page: 0, page_size: 5, total_items: 20 };
    assert_eq!(exact.total_pages(), 4);
    let empty = PaginationState::default();
    assert_eq!(empty.total_pages(), 0);
    assert_eq!(empty.next_page(), None);
}

#[test]
fn pages_cover_all_rows() {
    for total in 0usize..40 {
        for size in 1usize..7 {
            let p = PaginationState { current_page: 0, page_size: size, total_items: total };
            let n = p.total_pages();
            assert!(n * size >= total);
            assert!(total == 0 || (n - 1) * size < total);
        }
    }
}

#[test]
fn pagination_texts() {
    let p = PaginationState { current_page: 1, page_size: 10, total_items: 25 };
    assert_eq!(p.summary_text(), "Showing 11 to 20 of 25 items");
    assert_eq!(p.page_text(), "Page 2 of 3");
    let last = PaginationState { current_page: 2, page_size: 10, total_items: 25 };
    assert_eq!(last.summary_text(), "Showing 21 to 25 of 25 items");
    let empty = PaginationState { current_page: 0, page_size: 10, total_items: 0 };
    assert_eq!(empty.summary_text(), "Showing 1 to 0 of 0 items");
    assert_eq!(empty.page_text(), "Page 1 of 0");
}

#[test]
fn row_backgrounds() {
    assert_eq!(row_background(1, true, true), RowBackground::Selected);
    assert_eq!(row_background(1, false, true), RowBackground::Alternate);
    assert_eq!(row_background(2, false, true), RowBackground::Plain);
    assert_eq!(row_background(1, false, false), RowBackground::Plain);
}
