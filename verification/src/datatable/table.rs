//! The data table: rows shown through a filtered, sorted order of indices,
//! with row and column selection, paging and the events it emits.
use vstd::prelude::*;

use super::column::Column;
use super::config::DataTableConfig;
use super::events::{table_event_view, table_events_view, DataTableEvent, TableEventView};
use super::row::{SimpleRow, TableRow};
use super::sorting::{
    cell_key, cell_key_spec, is_permutation_of, stable_sort, stably_sorted, CellKey, KeyView,
};
use super::types::{SelectionMode, SortDirection, SortState};
use crate::event::{Event, EventResult, KeyCode, KeyEvent, KeyEventKind};
use crate::text::{chars_of, contains_chars, contains_text, lowercase_of, text_eq, to_lowercase, TextArg};

verus! {

/// Numbers the application read from the cells of a floating-point based
/// column: `keys[i]` for data row `i`, `None` where the cell did not read as
/// a number.
#[derive(Debug, Clone)]
pub struct NumberKeys {
    pub column_id: String,
    pub keys: Vec<Option<i128>>,
}

/// Everything a data table holds, as plain values.
pub struct TableView<R> {
    pub id: Seq<char>,
    pub columns: Seq<Column>,
    pub rows: Seq<R>,
    /// Data indices of the shown rows, in display order.
    pub order: Seq<usize>,
    /// Selected row, as a display index.
    pub selected_row: Option<usize>,
    /// Selected column, as an index among the visible columns.
    pub selected_column: Option<usize>,
    pub sort: Option<(Seq<char>, SortDirection)>,
    pub filter: Seq<char>,
    pub mode: SelectionMode,
    pub title: Option<Seq<char>>,
    pub scroll: usize,
    /// Rows per page, as last laid out.
    pub page: usize,
    pub number_keys: Seq<(Seq<char>, Seq<Option<i128>>)>,
    pub config: DataTableConfig,
    pub events: Seq<TableEventView>,
}

// ---------------------------------------------------------------------------
// Specification of the table's operations
// ---------------------------------------------------------------------------

/// The header text of a column: its title, and when the table is sorted by
/// it, a space and the symbol of the sort direction.
pub open spec fn header_text<R>(v: TableView<R>, col: Column) -> Seq<char> {
    match v.sort {
        Some((id, dir)) => if id == col.key() {
            col.heading() + " "@ + match dir {
                SortDirection::Ascending => v.config.sort_asc_symbol@,
                SortDirection::Descending => v.config.sort_desc_symbol@,
            }
        } else {
            col.heading()
        },
        None => col.heading(),
    }
}

/// The data index of the selected row, if the selection is on a shown row.
pub open spec fn selected_data<R>(v: TableView<R>) -> Option<usize> {
    match v.selected_row {
        Some(s) => if s < v.order.len() {
            Some(v.order[s as int])
        } else {
            None
        },
        None => None,
    }
}

/// Indices of the visible columns, in order.
pub open spec fn visible_indices(cols: Seq<Column>) -> Seq<int>
    decreases cols.len(),
{
    if cols.len() == 0 {
        Seq::empty()
    } else if cols.last().shown() {
        visible_indices(cols.drop_last()).push(cols.len() - 1)
    } else {
        visible_indices(cols.drop_last())
    }
}

/// Select the shown row at display index `index`, if there is one: emits the
/// row's selection and the selection change.
pub open spec fn select_row_spec<R>(v: TableView<R>, index: usize) -> TableView<R> {
    if index < v.order.len() {
        TableView {
            selected_row: Some(index),
            events: v.events.push(TableEventView::RowSelected(v.order[index as int])).push(
                TableEventView::SelectionChanged {
                    row: Some(v.order[index as int]),
                    column: v.selected_column,
                },
            ),
            ..v
        }
    } else {
        v
    }
}

/// The next row down (the first when none is selected).
pub open spec fn select_next_row_spec<R>(v: TableView<R>) -> TableView<R> {
    if v.order.len() == 0 {
        v
    } else {
        select_row_spec(
            v,
            match v.selected_row {
                Some(i) => vstd::math::min(i + 1, v.order.len() - 1) as usize,
                None => 0,
            },
        )
    }
}

/// The next row up (the first when none is selected).
pub open spec fn select_prev_row_spec<R>(v: TableView<R>) -> TableView<R> {
    if v.order.len() == 0 {
        v
    } else {
        select_row_spec(
            v,
            match v.selected_row {
                Some(i) => if i > 0 {
                    (i - 1) as usize
                } else {
                    0
                },
                None => 0,
            },
        )
    }
}

/// One page down: by the page height, at most to the last row.
pub open spec fn page_down_spec<R>(v: TableView<R>) -> TableView<R> {
    if v.order.len() == 0 {
        v
    } else {
        select_row_spec(
            v,
            match v.selected_row {
                Some(i) => vstd::math::min(i + v.page, v.order.len() - 1) as usize,
                None => vstd::math::min(v.page as int, v.order.len() - 1) as usize,
            },
        )
    }
}

/// One page up: by the page height, at least to the first row.
pub open spec fn page_up_spec<R>(v: TableView<R>) -> TableView<R> {
    if v.order.len() == 0 {
        v
    } else {
        select_row_spec(
            v,
            match v.selected_row {
                Some(i) => if i >= v.page {
                    (i - v.page) as usize
                } else {
                    0
                },
                None => 0,
            },
        )
    }
}

/// Select the visible column at `index`, if there is one.
pub open spec fn select_column_spec<R>(v: TableView<R>, index: usize) -> TableView<R> {
    if index < visible_indices(v.columns).len() {
        TableView {
            selected_column: Some(index),
            events: v.events.push(
                TableEventView::SelectionChanged { row: selected_data(v), column: Some(index) },
            ),
            ..v
        }
    } else {
        v
    }
}

/// The next visible column (the first when none is selected).
pub open spec fn select_next_column_spec<R>(v: TableView<R>) -> TableView<R> {
    let n = visible_indices(v.columns).len();
    if n == 0 {
        v
    } else {
        select_column_spec(
            v,
            match v.selected_column {
                Some(i) => vstd::math::min(i + 1, n - 1) as usize,
                None => 0,
            },
        )
    }
}

/// The previous visible column (the first when none is selected).
pub open spec fn select_prev_column_spec<R>(v: TableView<R>) -> TableView<R> {
    if visible_indices(v.columns).len() == 0 {
        v
    } else {
        select_column_spec(
            v,
            match v.selected_column {
                Some(i) => if i > 0 {
                    (i - 1) as usize
                } else {
                    0
                },
                None => 0,
            },
        )
    }
}

/// Whether `row` shows under `filter`: an empty filter shows every row;
/// otherwise some column's value must contain the filter, both lowercased.
pub open spec fn row_matches<R: TableRow>(cols: Seq<Column>, filter: Seq<char>, row: R) -> bool {
    filter.len() == 0 || exists|c: int|
        0 <= c < cols.len() && #[trigger] value_contains(
            row.value_of(cols[c].key()),
            lowercase_of(filter),
        )
}

/// Whether a value, lowercased, contains `needle`.
pub open spec fn value_contains(v: Option<Seq<char>>, needle: Seq<char>) -> bool {
    match v {
        Some(x) => contains_text(lowercase_of(x), needle),
        None => false,
    }
}

/// The data indices below `n` of the rows that show, in data order.
pub open spec fn filtered_upto<R: TableRow>(
    rows: Seq<R>,
    cols: Seq<Column>,
    filter: Seq<char>,
    n: nat,
) -> Seq<usize>
    decreases n,
{
    if n == 0 {
        Seq::empty()
    } else if row_matches(cols, filter, rows[n - 1]) {
        filtered_upto(rows, cols, filter, (n - 1) as nat).push((n - 1) as usize)
    } else {
        filtered_upto(rows, cols, filter, (n - 1) as nat)
    }
}

/// The data indices of the rows that show, in data order.
pub open spec fn filtered_order<R: TableRow>(v: TableView<R>) -> Seq<usize> {
    filtered_upto(v.rows, v.columns, v.filter, v.rows.len())
}

/// The index of the first column with identifier `id`, or -1.
pub open spec fn first_column(cols: Seq<Column>, id: Seq<char>, from: int) -> int
    decreases cols.len() - from,
{
    if from < 0 || from >= cols.len() {
        -1
    } else if cols[from].key() == id {
        from
    } else {
        first_column(cols, id, from + 1)
    }
}

/// The numbers read for the column `id` (the last list given for it).
pub open spec fn numbers_for(nk: Seq<(Seq<char>, Seq<Option<i128>>)>, id: Seq<char>) -> Option<
    Seq<Option<i128>>,
>
    decreases nk.len(),
{
    if nk.len() == 0 {
        None
    } else if nk.last().0 == id {
        Some(nk.last().1)
    } else {
        numbers_for(nk.drop_last(), id)
    }
}

/// The number read from row `i` of column `id`, if any.
pub open spec fn number_of(nk: Seq<(Seq<char>, Seq<Option<i128>>)>, id: Seq<char>, i: int) -> Option<int> {
    match numbers_for(nk, id) {
        Some(keys) => if 0 <= i < keys.len() {
            match keys[i] {
                Some(n) => Some(n as int),
                None => None,
            }
        } else {
            None
        },
        None => None,
    }
}

/// The sort keys of every data row in column `col`.
pub open spec fn column_keys<R: TableRow>(v: TableView<R>, col: Column) -> Seq<KeyView> {
    Seq::new(
        v.rows.len(),
        |i: int| cell_key_spec(v.rows[i].value_of(col.key()), col.kind(), number_of(v.number_keys, col.key(), i)),
    )
}

/// The first display index showing data row `d`.
pub open spec fn position_in(order: Seq<usize>, d: usize) -> Option<usize>
    decreases order.len(),
{
    if order.len() == 0 {
        None
    } else {
        match position_in(order.drop_last(), d) {
            Some(p) => Some(p),
            None => if order.last() == d {
                Some((order.len() - 1) as usize)
            } else {
                None
            },
        }
    }
}

/// `w` is `v` sorted by the column `column_id` in `direction`: when the
/// first column with that identifier exists and is sortable, the shown rows
/// are stably sorted by their keys, the sort is remembered, the selection
/// follows its data row, and the sort is announced; otherwise nothing changes.
pub open spec fn sorted_by<R: TableRow>(
    v: TableView<R>,
    w: TableView<R>,
    column_id: Seq<char>,
    direction: SortDirection,
) -> bool {
    let c = first_column(v.columns, column_id, 0);
    if c < 0 || !v.columns[c].can_sort() {
        w == v
    } else {
        let keys = column_keys(v, v.columns[c]);
        &&& is_permutation_of(w.order, v.order)
        &&& stably_sorted(w.order, v.order, keys, direction == SortDirection::Descending)
        &&& w == TableView {
            order: w.order,
            sort: Some((column_id, direction)),
            selected_row: match selected_data(v) {
                Some(d) => position_in(w.order, d),
                None => v.selected_row,
            },
            events: v.events.push(TableEventView::ColumnSorted { column_id, direction }),
            ..v
        }
    }
}

/// `w` is `v` with its shown rows recomputed: filtered in data order, then
/// sorted again by the remembered sort, if any.
pub open spec fn rebuilt<R: TableRow>(v: TableView<R>, w: TableView<R>) -> bool {
    let mid = TableView { order: filtered_order(v), ..v };
    match v.sort {
        None => w == mid,
        Some((c, d)) => sorted_by(mid, w, c, d),
    }
}

/// `w` is `v` after replacing the rows: the numbers read from the old rows
/// dropped, shown rows recomputed, then a selection past the last row is
/// pulled back to it (or dropped when there are no rows).
pub open spec fn rows_replaced<R: TableRow>(v: TableView<R>, w: TableView<R>, rows: Seq<R>) -> bool {
    exists|mid: TableView<R>|
        rebuilt(
            TableView { rows, number_keys: Seq::<(Seq<char>, Seq<Option<i128>>)>::empty(), ..v },
            mid,
        ) && w == TableView {
            selected_row: match mid.selected_row {
                Some(r) => if r >= rows.len() {
                    if rows.len() == 0 {
                        None
                    } else {
                        Some((rows.len() - 1) as usize)
                    }
                } else {
                    Some(r)
                },
                None => None,
            },
            ..mid
        }
}

/// `w` is `v` after setting the filter: shown rows recomputed, a selection
/// past the shown rows moved to the first one (or dropped when none shows),
/// and the scroll reset.
pub open spec fn filter_set<R: TableRow>(v: TableView<R>, w: TableView<R>, filter: Seq<char>) -> bool {
    exists|mid: TableView<R>|
        rebuilt(TableView { filter, ..v }, mid) && w == TableView {
            selected_row: match mid.selected_row {
                Some(s) => if s >= mid.order.len() {
                    if mid.order.len() == 0 {
                        None
                    } else {
                        Some(0)
                    }
                } else {
                    Some(s)
                },
                None => None,
            },
            scroll: 0,
            ..mid
        }
}

/// The sort that toggling the column `column_id` applies: the other direction
/// when the table is sorted by that column, ascending otherwise.
pub open spec fn toggled_direction<R>(v: TableView<R>, column_id: Seq<char>) -> SortDirection {
    match v.sort {
        Some((c, d)) => if c == column_id {
            d.flipped()
        } else {
            SortDirection::Ascending
        },
        None => SortDirection::Ascending,
    }
}

/// The rows that fit in a table drawn `area_height` lines high: the height
/// less the borders and the header with its margin.
pub open spec fn rows_area(config: DataTableConfig, area_height: u16) -> usize {
    let used = (if config.show_header {
        1 + config.header_margin
    } else {
        0
    }) + 2;
    if area_height >= used {
        (area_height - used) as usize
    } else {
        0
    }
}

/// The scroll offset that keeps the selected row in view in an area
/// `area_height` lines high (unchanged when scrolling is off, nothing is
/// selected, or no row fits).
pub open spec fn scroll_to_selection<R>(v: TableView<R>, area_height: u16) -> usize {
    let h = rows_area(v.config, area_height);
    if !v.config.scrollable || h == 0 {
        v.scroll
    } else {
        match v.selected_row {
            None => v.scroll,
            Some(s) => if s < v.scroll {
                s
            } else if s >= v.scroll + h {
                (s - (h - 1)) as usize
            } else {
                v.scroll
            },
        }
    }
}

/// Whether the selection mode moves between rows.
pub open spec fn selects_rows(mode: SelectionMode) -> bool {
    mode == SelectionMode::Row || mode == SelectionMode::Cell
}

/// Whether the selection mode moves between columns.
pub open spec fn selects_columns(mode: SelectionMode) -> bool {
    mode == SelectionMode::Column || mode == SelectionMode::Cell
}

/// Select the first shown row.
pub open spec fn select_first_spec<R>(v: TableView<R>) -> TableView<R> {
    select_row_spec(v, 0)
}

/// Select the last shown row.
pub open spec fn select_last_spec<R>(v: TableView<R>) -> TableView<R> {
    if v.order.len() == 0 {
        v
    } else {
        select_row_spec(v, (v.order.len() - 1) as usize)
    }
}

/// Enter activates the selected row, if it is a shown row.
pub open spec fn activate_spec<R>(v: TableView<R>) -> TableView<R> {
    match v.selected_row {
        Some(i) => if i < v.order.len() {
            TableView {
                events: v.events.push(TableEventView::RowActivated(v.order[i as int])),
                ..v
            }
        } else {
            v
        },
        None => v,
    }
}

/// `w` is `v` after the sort key: toggling the sort of the selected visible
/// column, if there is one.
pub open spec fn sort_key_effect<R: TableRow>(v: TableView<R>, w: TableView<R>) -> bool {
    let vis = visible_indices(v.columns);
    match v.selected_column {
        Some(ci) => if ci < vis.len() {
            let id = v.columns[vis[ci as int]].key();
            sorted_by(v, w, id, toggled_direction(v, id))
        } else {
            w == v
        },
        None => w == v,
    }
}

/// `w` and `r` are what a key event does to the table `v`: the arrows (and
/// k, j, h, l) move the selection where the mode allows, the page keys page,
/// Home and End go to the first and last row, Enter activates the selected
/// row, and s toggles the sort of the selected column where columns are
/// selected. Other keys and key releases are not used.
pub open spec fn table_key_effect<R: TableRow>(
    v: TableView<R>,
    w: TableView<R>,
    key: KeyEvent,
    r: EventResult,
) -> bool {
    if key.kind != KeyEventKind::Press {
        w == v && r == EventResult::Unhandled
    } else {
        match key.code {
            KeyCode::Up | KeyCode::Char('k') => if selects_rows(v.mode) {
                w == select_prev_row_spec(v) && r == EventResult::Handled
            } else {
                w == v && r == EventResult::Unhandled
            },
            KeyCode::Down | KeyCode::Char('j') => if selects_rows(v.mode) {
                w == select_next_row_spec(v) && r == EventResult::Handled
            } else {
                w == v && r == EventResult::Unhandled
            },
            KeyCode::Left | KeyCode::Char('h') => if selects_columns(v.mode) {
                w == select_prev_column_spec(v) && r == EventResult::Handled
            } else {
                w == v && r == EventResult::Unhandled
            },
            KeyCode::Right | KeyCode::Char('l') => if selects_columns(v.mode) {
                w == select_next_column_spec(v) && r == EventResult::Handled
            } else {
                w == v && r == EventResult::Unhandled
            },
            KeyCode::PageDown => w == page_down_spec(v) && r == EventResult::Handled,
            KeyCode::PageUp => w == page_up_spec(v) && r == EventResult::Handled,
            KeyCode::Home => w == select_first_spec(v) && r == EventResult::Handled,
            KeyCode::End => w == select_last_spec(v) && r == EventResult::Handled,
            KeyCode::Enter => w == activate_spec(v) && r == EventResult::Handled,
            KeyCode::Char('s') => if selects_columns(v.mode) {
                sort_key_effect(v, w) && r == EventResult::Handled
            } else {
                w == v && r == EventResult::Unhandled
            },
            _ => w == v && r == EventResult::Unhandled,
        }
    }
}

/// Gaining focus: announce it, select the first row when nothing is selected,
/// there are rows and selection is on, and the first column when no column
/// is selected and columns are selected.
pub open spec fn focus_spec<R>(v: TableView<R>) -> TableView<R> {
    TableView {
        events: v.events.push(TableEventView::FocusGained),
        selected_row: if v.selected_row is None && v.rows.len() > 0 && v.mode
            != SelectionMode::Disabled {
            Some(0)
        } else {
            v.selected_row
        },
        selected_column: if v.selected_column is None && selects_columns(v.mode) {
            Some(0)
        } else {
            v.selected_column
        },
        ..v
    }
}

proof fn lemma_filtered_members<R: TableRow>(
    rows: Seq<R>,
    cols: Seq<Column>,
    filter: Seq<char>,
    n: nat,
    d: usize,
)
    requires
        n <= rows.len(),
        n <= usize::MAX,
    ensures
        filtered_upto(rows, cols, filter, n).contains(d) <==> (d < n && row_matches(
            cols,
            filter,
            rows[d as int],
        )),
    decreases n,
{
    if n > 0 {
        lemma_filtered_members(rows, cols, filter, (n - 1) as nat, d);
        let prev = filtered_upto(rows, cols, filter, (n - 1) as nat);
        if row_matches(cols, filter, rows[n - 1]) {
            let cur = prev.push((n - 1) as usize);
            if prev.contains(d) {
                let i = choose|i: int| 0 <= i < prev.len() && prev[i] == d;
                assert(cur[i] == d);
            }
            if d == n - 1 {
                assert(cur[prev.len() as int] == d);
            }
            if cur.contains(d) {
                let i = choose|i: int| 0 <= i < cur.len() && cur[i] == d;
                if i < prev.len() {
                    assert(prev[i] == d);
                }
            }
        }
    }
}

/// The filter shows exactly the rows that match it: a data row is shown
/// (once) if and only if some column's value, lowercased, contains the
/// lowercased filter, or the filter is empty; the shown rows keep data order
/// before any sort.
pub proof fn lemma_filter_exact<R: TableRow>(rows: Seq<R>, cols: Seq<Column>, filter: Seq<char>)
    requires
        rows.len() <= usize::MAX,
    ensures
        forall|d: usize|
            #![trigger filtered_upto(rows, cols, filter, rows.len()).contains(d)]
            filtered_upto(rows, cols, filter, rows.len()).contains(d) <==> (d < rows.len()
                && row_matches(cols, filter, rows[d as int])),
        filtered_upto(rows, cols, filter, rows.len()).no_duplicates(),
        forall|i: int, j: int|
            0 <= i < j < filtered_upto(rows, cols, filter, rows.len()).len() ==> filtered_upto(
                rows,
                cols,
                filter,
                rows.len(),
            )[i] < filtered_upto(rows, cols, filter, rows.len())[j],
{
    lemma_filtered_bounds(rows, cols, filter, rows.len());
    lemma_filtered_sorted(rows, cols, filter, rows.len());
    assert forall|d: usize| filtered_upto(rows, cols, filter, rows.len()).contains(d) <==> (d
        < rows.len() && row_matches(cols, filter, rows[d as int])) by {
        lemma_filtered_members(rows, cols, filter, rows.len(), d);
    }
}

proof fn lemma_filtered_sorted<R: TableRow>(
    rows: Seq<R>,
    cols: Seq<Column>,
    filter: Seq<char>,
    n: nat,
)
    requires
        n <= usize::MAX,
    ensures
        forall|i: int, j: int|
            0 <= i < j < filtered_upto(rows, cols, filter, n).len() ==> filtered_upto(
                rows,
                cols,
                filter,
                n,
            )[i] < filtered_upto(rows, cols, filter, n)[j],
    decreases n,
{
    if n > 0 {
        lemma_filtered_sorted(rows, cols, filter, (n - 1) as nat);
        lemma_filtered_bounds(rows, cols, filter, (n - 1) as nat);
    }
}

/// With an empty filter every data row is shown, in data order.
pub proof fn lemma_empty_filter_shows_all<R: TableRow>(rows: Seq<R>, cols: Seq<Column>, n: nat)
    requires
        n <= usize::MAX,
    ensures
        filtered_upto(rows, cols, Seq::empty(), n) == Seq::new(n, |i: int| i as usize),
    decreases n,
{
    if n > 0 {
        lemma_empty_filter_shows_all(rows, cols, (n - 1) as nat);
        assert(filtered_upto(rows, cols, Seq::empty(), n) =~= Seq::new(n, |i: int| i as usize));
    } else {
        assert(filtered_upto(rows, cols, Seq::<char>::empty(), 0) =~= Seq::new(
            0,
            |i: int| i as usize,
        ));
    }
}

/// The filter finds substrings: under a non-empty filter a row shows exactly
/// when some column's value, lowercased, holds the lowercased filter as a
/// run of characters starting at some position (not only at its start).
pub proof fn lemma_filter_finds_substrings<R: TableRow>(
    cols: Seq<Column>,
    filter: Seq<char>,
    row: R,
)
    requires
        filter.len() > 0,
    ensures
        row_matches(cols, filter, row) <==> exists|c: int, i: int|
            #![trigger row.value_of(cols[c].key()), lowercase_of(row.value_of(cols[c].key())->0).subrange(i, i + lowercase_of(filter).len())]
            0 <= c < cols.len() && row.value_of(cols[c].key()) is Some && 0 <= i && i
                + lowercase_of(filter).len() <= lowercase_of(row.value_of(cols[c].key())->0).len()
                && lowercase_of(row.value_of(cols[c].key())->0).subrange(
                i,
                i + lowercase_of(filter).len(),
            ) == lowercase_of(filter),
{
    let f = lowercase_of(filter);
    if row_matches(cols, filter, row) {
        let c = choose|c: int|
            0 <= c < cols.len() && #[trigger] value_contains(row.value_of(cols[c].key()), f);
        let x = row.value_of(cols[c].key())->0;
        let i = choose|i: int|
            0 <= i && i + f.len() <= lowercase_of(x).len() && #[trigger] lowercase_of(x).subrange(
                i,
                i + f.len(),
            ) == f;
        assert(lowercase_of(x).subrange(i, i + f.len()) == f);
    }
    if exists|c: int, i: int|
        #![trigger row.value_of(cols[c].key()), lowercase_of(row.value_of(cols[c].key())->0).subrange(i, i + f.len())]
        0 <= c < cols.len() && row.value_of(cols[c].key()) is Some && 0 <= i && i + f.len()
            <= lowercase_of(row.value_of(cols[c].key())->0).len() && lowercase_of(
            row.value_of(cols[c].key())->0,
        ).subrange(i, i + f.len()) == f {
        let (c, i) = choose|c: int, i: int|
            #![trigger row.value_of(cols[c].key()), lowercase_of(row.value_of(cols[c].key())->0).subrange(i, i + f.len())]
            0 <= c < cols.len() && row.value_of(cols[c].key()) is Some && 0 <= i && i + f.len()
                <= lowercase_of(row.value_of(cols[c].key())->0).len() && lowercase_of(
                row.value_of(cols[c].key())->0,
            ).subrange(i, i + f.len()) == f;
        let x = row.value_of(cols[c].key())->0;
        assert(lowercase_of(x).subrange(i, i + f.len()) == f);
        assert(value_contains(row.value_of(cols[c].key()), f));
    }
}

/// Down (or j) in Row or Cell mode moves the selection one shown row down
/// (to the first shown row when none is selected, and no further than the
/// last), and the key is used; the rows, their order and the columns stay.
/// In Column and Disabled mode the key is not used and nothing changes.
pub proof fn lemma_down_moves_rows_in_row_and_cell_modes<R: TableRow>(
    v: TableView<R>,
    w: TableView<R>,
    key: KeyEvent,
    r: EventResult,
)
    requires
        key.kind == KeyEventKind::Press,
        key.code == KeyCode::Down || key.code == KeyCode::Char('j'),
        table_key_effect(v, w, key, r),
    ensures
        (v.mode == SelectionMode::Row || v.mode == SelectionMode::Cell) ==> {
            &&& r == EventResult::Handled
            &&& v.order.len() > 0 ==> w.selected_row == Some(
                match v.selected_row {
                    Some(i) => if i + 1 < v.order.len() {
                        (i + 1) as usize
                    } else {
                        (v.order.len() - 1) as usize
                    },
                    None => 0usize,
                },
            )
            &&& w.rows == v.rows && w.order == v.order && w.columns == v.columns
        },
        (v.mode == SelectionMode::Column || v.mode == SelectionMode::Disabled) ==> {
            &&& r == EventResult::Unhandled
            &&& w == v
        },
{
}

/// Up (or k) in Row or Cell mode moves the selection on a shown row one row
/// up (to the first shown row when none is selected, and no further), and
/// the key is used; the rows, their order and the columns stay. In Column
/// and Disabled mode the key is not used and nothing changes.
pub proof fn lemma_up_moves_rows_in_row_and_cell_modes<R: TableRow>(
    v: TableView<R>,
    w: TableView<R>,
    key: KeyEvent,
    r: EventResult,
)
    requires
        key.kind == KeyEventKind::Press,
        key.code == KeyCode::Up || key.code == KeyCode::Char('k'),
        table_key_effect(v, w, key, r),
    ensures
        (v.mode == SelectionMode::Row || v.mode == SelectionMode::Cell) ==> {
            &&& r == EventResult::Handled
            &&& (v.order.len() > 0 && (v.selected_row matches Some(i) ==> i < v.order.len()))
                ==> w.selected_row == Some(
                match v.selected_row {
                    Some(i) => if i > 0 {
                        (i - 1) as usize
                    } else {
                        0usize
                    },
                    None => 0usize,
                },
            )
            &&& w.rows == v.rows && w.order == v.order && w.columns == v.columns
        },
        (v.mode == SelectionMode::Column || v.mode == SelectionMode::Disabled) ==> {
            &&& r == EventResult::Unhandled
            &&& w == v
        },
{
}

/// Right (or l) in Column or Cell mode moves the column selection one
/// visible column right (to the first when none is selected, and no further
/// than the last), and the key is used; in Row and Disabled mode the key is
/// not used and nothing changes.
pub proof fn lemma_right_moves_columns_in_column_and_cell_modes<R: TableRow>(
    v: TableView<R>,
    w: TableView<R>,
    key: KeyEvent,
    r: EventResult,
)
    requires
        key.kind == KeyEventKind::Press,
        key.code == KeyCode::Right || key.code == KeyCode::Char('l'),
        table_key_effect(v, w, key, r),
    ensures
        (v.mode == SelectionMode::Column || v.mode == SelectionMode::Cell) ==> {
            &&& r == EventResult::Handled
            &&& visible_indices(v.columns).len() > 0 ==> w.selected_column == Some(
                match v.selected_column {
                    Some(i) => if i + 1 < visible_indices(v.columns).len() {
                        (i + 1) as usize
                    } else {
                        (visible_indices(v.columns).len() - 1) as usize
                    },
                    None => 0usize,
                },
            )
            &&& w.rows == v.rows && w.order == v.order && w.selected_row == v.selected_row
        },
        (v.mode == SelectionMode::Row || v.mode == SelectionMode::Disabled) ==> {
            &&& r == EventResult::Unhandled
            &&& w == v
        },
{
}

/// Home and End, in every selection mode, select the first and the last
/// shown row (when any row shows), and the key is used; Enter announces the
/// data row under the selection when it is on a shown row.
pub proof fn lemma_home_end_enter<R: TableRow>(
    v: TableView<R>,
    w: TableView<R>,
    key: KeyEvent,
    r: EventResult,
)
    requires
        key.kind == KeyEventKind::Press,
        table_key_effect(v, w, key, r),
    ensures
        key.code == KeyCode::Home ==> r == EventResult::Handled && (v.order.len() > 0
            ==> w.selected_row == Some(0usize)),
        key.code == KeyCode::End ==> r == EventResult::Handled && (v.order.len() > 0
            ==> w.selected_row == Some((v.order.len() - 1) as usize)),
        key.code == KeyCode::Enter ==> {
            &&& r == EventResult::Handled
            &&& w.selected_row == v.selected_row
            &&& (v.selected_row matches Some(s) && s < v.order.len()) ==> w.events == v.events.push(
                TableEventView::RowActivated(v.order[v.selected_row->0 as int]),
            )
        },
{
}

/// Row moves keep the selection on a shown row: after moving up, down, a
/// page, or to the first or last row of a table with shown rows, the
/// selected row is one of them.
pub proof fn lemma_moves_select_shown_row<R>(v: TableView<R>)
    requires
        v.order.len() > 0,
        v.order.len() <= usize::MAX,
        v.selected_row matches Some(s) ==> s < v.order.len(),
    ensures
        select_next_row_spec(v).selected_row matches Some(s) && s < v.order.len(),
        select_prev_row_spec(v).selected_row matches Some(s) && s < v.order.len(),
        page_down_spec(v).selected_row matches Some(s) && s < v.order.len(),
        page_up_spec(v).selected_row matches Some(s) && s < v.order.len(),
        select_first_spec(v).selected_row matches Some(s) && s < v.order.len(),
        select_last_spec(v).selected_row matches Some(s) && s < v.order.len(),
{
}

/// Toggling the sort of a sortable column twice turns its direction back:
/// the second toggle sorts in the other direction from the first.
pub proof fn lemma_toggle_turns_back<R: TableRow>(
    v: TableView<R>,
    w: TableView<R>,
    column_id: Seq<char>,
)
    requires
        first_column(v.columns, column_id, 0) >= 0,
        v.columns[first_column(v.columns, column_id, 0)].can_sort(),
        sorted_by(v, w, column_id, toggled_direction(v, column_id)),
    ensures
        toggled_direction(w, column_id) == toggled_direction(v, column_id).flipped(),
{
}

/// Scrolling to the selection puts the selected row in view: after it, the
/// selected row lies within the rows that fit, counted from the scroll
/// offset (when scrolling is on and some row fits).
pub proof fn lemma_selection_in_view<R>(v: TableView<R>, area_height: u16)
    requires
        v.config.scrollable,
        rows_area(v.config, area_height) > 0,
        v.selected_row is Some,
    ensures
        scroll_to_selection(v, area_height) <= v.selected_row->0 < scroll_to_selection(
            v,
            area_height,
        ) + rows_area(v.config, area_height),
{
}

/// A data-driven table with sorting, filtering, selection and scrolling.
pub struct DataTable<R: TableRow = SimpleRow> {
    id: String,
    columns: Vec<Column>,
    rows: Vec<R>,
    selected_row: Option<usize>,
    selected_column: Option<usize>,
    sort_state: Option<SortState>,
    filter: String,
    sorted_indices: Vec<usize>,
    selection_mode: SelectionMode,
    config: DataTableConfig,
    title: Option<String>,
    scroll_offset: usize,
    last_visible_height: usize,
    events: Vec<DataTableEvent>,
    number_keys: Vec<NumberKeys>,
}

impl<R: TableRow> View for DataTable<R> {
    type V = TableView<R>;

    closed spec fn view(&self) -> TableView<R> {
        TableView {
            id: self.id@,
            columns: self.columns@,
            rows: self.rows@,
            order: self.sorted_indices@,
            selected_row: self.selected_row,
            selected_column: self.selected_column,
            sort: match self.sort_state {
                Some(st) => Some((st.column_id@, st.direction)),
                None => None,
            },
            filter: self.filter@,
            mode: self.selection_mode,
            title: match self.title {
                Some(t) => Some(t@),
                None => None,
            },
            scroll: self.scroll_offset,
            page: self.last_visible_height,
            number_keys: self.number_keys@.map_values(|k: NumberKeys| (k.column_id@, k.keys@)),
            config: self.config,
            events: table_events_view(self.events@),
        }
    }
}

/// The well-formedness of a table view: the shown rows are distinct data
/// rows.
pub open spec fn view_wf<R>(v: TableView<R>) -> bool {
    &&& v.order.no_duplicates()
    &&& v.order.len() <= v.rows.len()
    &&& forall|i: int| 0 <= i < v.order.len() ==> #[trigger] v.order[i] < v.rows.len()
}

proof fn lemma_visible_bounds(cols: Seq<Column>)
    ensures
        visible_indices(cols).len() <= cols.len(),
        forall|j: int|
            0 <= j < visible_indices(cols).len() ==> 0 <= #[trigger] visible_indices(cols)[j]
                < cols.len(),
    decreases cols.len(),
{
    if cols.len() > 0 {
        lemma_visible_bounds(cols.drop_last());
    }
}

proof fn lemma_filtered_bounds<R: TableRow>(rows: Seq<R>, cols: Seq<Column>, filter: Seq<char>, n: nat)
    requires
        n <= usize::MAX,
    ensures
        filtered_upto(rows, cols, filter, n).len() <= n,
        filtered_upto(rows, cols, filter, n).no_duplicates(),
        forall|i: int|
            0 <= i < filtered_upto(rows, cols, filter, n).len() ==> #[trigger] filtered_upto(
                rows,
                cols,
                filter,
                n,
            )[i] < n,
    decreases n,
{
    if n > 0 {
        let prev = filtered_upto(rows, cols, filter, (n - 1) as nat);
        lemma_filtered_bounds(rows, cols, filter, (n - 1) as nat);
        if row_matches(cols, filter, rows[n - 1]) {
            let cur = prev.push((n - 1) as usize);
            assert forall|i: int, j: int| 0 <= i < j < cur.len() implies cur[i] != cur[j] by {
                if j == cur.len() - 1 {
                    assert(prev[i] < n - 1);
                }
            }
        }
    }
}

proof fn lemma_position_prefix(order: Seq<usize>, d: usize, k: int)
    requires
        0 <= k <= order.len(),
        position_in(order.take(k), d) is Some,
    ensures
        position_in(order, d) == position_in(order.take(k), d),
    decreases order.len() - k,
{
    if k < order.len() {
        assert(order.take(k + 1).drop_last() =~= order.take(k));
        lemma_position_prefix(order, d, k + 1);
    } else {
        assert(order.take(k) =~= order);
    }
}

proof fn lemma_position_absent(order: Seq<usize>, d: usize)
    requires
        forall|i: int| 0 <= i < order.len() ==> order[i] != d,
    ensures
        position_in(order, d) is None,
    decreases order.len(),
{
    if order.len() > 0 {
        lemma_position_absent(order.drop_last(), d);
    }
}

proof fn lemma_position_found(order: Seq<usize>, d: usize)
    requires
        position_in(order, d) is Some,
        order.len() <= usize::MAX,
    ensures
        position_in(order, d)->0 < order.len(),
        order[position_in(order, d)->0 as int] == d,
    decreases order.len(),
{
    if order.len() > 0 {
        let prefix = order.drop_last();
        if position_in(prefix, d) is Some {
            lemma_position_found(prefix, d);
            assert(prefix[position_in(prefix, d)->0 as int] == order[position_in(prefix, d)->0 as int]);
        } else {
            assert(order.last() == d);
        }
    }
}

impl<R: TableRow> DataTable<R> {
    /// Well-formedness (see `view_wf`).
    pub open spec fn wf(&self) -> bool {
        view_wf(self@)
    }

    /// An empty table in row selection mode, with the default layout.
    pub fn new(id: impl TextArg) -> (t: DataTable<R>)
        ensures
            t.wf(),
            t@.id == id.text_view(),
            t@.columns == Seq::<Column>::empty(),
            t@.rows == Seq::<R>::empty(),
            t@.order == Seq::<usize>::empty(),
            t@.selected_row is None,
            t@.selected_column is None,
            t@.sort is None,
            t@.filter == Seq::<char>::empty(),
            t@.mode == SelectionMode::Row,
            t@.title is None,
            t@.scroll == 0,
            t@.page == 10,
            t@.number_keys == Seq::<(Seq<char>, Seq<Option<i128>>)>::empty(),
            t@.events == Seq::<TableEventView>::empty(),
    {
        let t = DataTable {
            id: id.into_text(),
            columns: Vec::new(),
            rows: Vec::new(),
            selected_row: None,
            selected_column: None,
            sort_state: None,
            filter: String::new(),
            sorted_indices: Vec::new(),
            selection_mode: SelectionMode::Row,
            config: DataTableConfig::default(),
            title: None,
            scroll_offset: 0,
            last_visible_height: 10,
            events: Vec::new(),
            number_keys: Vec::new(),
        };
        assert(t@.events =~= Seq::<TableEventView>::empty());
        assert(t@.number_keys =~= Seq::<(Seq<char>, Seq<Option<i128>>)>::empty());
        t
    }

    fn emit(&mut self, event: DataTableEvent)
        ensures
            final(self)@ == (TableView { events: old(self)@.events.push(table_event_view(event)), ..old(self)@ }),
    {
        self.events.push(event);
        assert(table_events_view(self.events@) =~= table_events_view(old(self).events@).push(
            table_event_view(event),
        ));
    }

    /// Whether `row` shows under the current filter.
    pub fn row_matches_filter(&self, row: &R) -> (b: bool)
        ensures
            b == row_matches(self@.columns, self@.filter, *row),
    {
        if self.filter.as_str().is_empty() {
            return true;
        }
        let needle = chars_of(to_lowercase(self.filter.as_str()).as_str());
        let n = self.columns.len();
        for c in 0..n
            invariant
                n == self.columns@.len(),
                needle@ == lowercase_of(self@.filter),
                self@.filter.len() > 0,
                forall|k: int|
                    0 <= k < c ==> !#[trigger] value_contains(
                        row.value_of(self@.columns[k].key()),
                        lowercase_of(self@.filter),
                    ),
        {
            match row.get_value(self.columns[c].id()) {
                Some(value) => {
                    let hay = chars_of(to_lowercase(value.as_str()).as_str());
                    if contains_chars(&hay, &needle) {
                        assert(value_contains(
                            row.value_of(self@.columns[c as int].key()),
                            lowercase_of(self@.filter),
                        ));
                        return true;
                    }
                },
                None => {},
            }
        }
        false
    }

    /// The data index of the selected row, if the selection is on a shown row.
    pub fn selected_row_index(&self) -> (r: Option<usize>)
        ensures
            r == selected_data(self@),
    {
        match self.selected_row {
            Some(s) => if s < self.sorted_indices.len() {
                Some(self.sorted_indices[s])
            } else {
                None
            },
            None => None,
        }
    }

    fn position_of(order: &Vec<usize>, d: usize) -> (r: Option<usize>)
        ensures
            r == position_in(order@, d),
    {
        let n = order.len();
        for i in 0..n
            invariant
                n == order@.len(),
                forall|j: int| 0 <= j < i ==> order@[j] != d,
        {
            if order[i] == d {
                proof {
                    lemma_position_absent(order@.take(i as int), d);
                    assert(order@.take(i + 1).drop_last() =~= order@.take(i as int));
                    lemma_position_prefix(order@, d, i + 1);
                }
                return Some(i);
            }
        }
        proof {
            lemma_position_absent(order@, d);
        }
        None
    }

    fn number_for(&self, column_id: &str, i: usize) -> (r: Option<i128>)
        ensures
            match r {
                Some(n) => number_of(self@.number_keys, column_id@, i as int) == Some(n as int),
                None => number_of(self@.number_keys, column_id@, i as int) is None,
            },
    {
        let mut k = self.number_keys.len();
        let ghost nk = self@.number_keys;
        assert(nk.take(k as int) =~= nk);
        while k > 0
            invariant
                k <= self.number_keys@.len(),
                nk == self@.number_keys,
                numbers_for(nk, column_id@) == numbers_for(nk.take(k as int), column_id@),
            decreases k,
        {
            assert(nk.take(k as int).drop_last() =~= nk.take(k - 1));
            let entry = &self.number_keys[k - 1];
            if text_eq(entry.column_id.as_str(), column_id) {
                if i < entry.keys.len() {
                    return entry.keys[i];
                }
                return None;
            }
            k = k - 1;
        }
        None
    }

    /// Sort the shown rows by the column `column_id`: see `sorted_by`.
    pub fn sort_by(&mut self, column_id: &str, direction: SortDirection)
        requires
            old(self).wf(),
        ensures
            final(self).wf(),
            sorted_by(old(self)@, final(self)@, column_id@, direction),
    {
        let n = self.columns.len();
        let mut c: usize = 0;
        while c < n && !text_eq(self.columns[c].id(), column_id)
            invariant
                c <= n,
                n == self.columns@.len(),
                first_column(self@.columns, column_id@, 0) == first_column(
                    self@.columns,
                    column_id@,
                    c as int,
                ),
            decreases n - c,
        {
            c = c + 1;
        }
        if c == n || !self.columns[c].is_sortable() {
            return ;
        }
        let ghost v0 = self@;
        let selected_data_idx = self.selected_row_index();
        let column_type = self.columns[c].column_type();
        let m = self.rows.len();
        let mut keys: Vec<CellKey> = Vec::new();
        let ghost col = self@.columns[c as int];
        for i in 0..m
            invariant
                m == self.rows@.len(),
                self@ == v0,
                c < self.columns@.len(),
                col == self@.columns[c as int],
                column_type == col.kind(),
                col.key() == column_id@,
                keys@.len() == i,
                forall|j: int|
                    0 <= j < i ==> #[trigger] super::sorting::key_view(keys@[j]) == column_keys(v0, col)[j],
        {
            let value = match self.rows[i].get_value(column_id) {
                Some(v) => Some(chars_of(v.as_str())),
                None => None,
            };
            let number = self.number_for(column_id, i);
            let k = cell_key(value, column_type, number);
            keys.push(k);
        }
        assert(super::sorting::keys_view(keys@) =~= column_keys(v0, col));
        let descending = match direction {
            SortDirection::Descending => true,
            SortDirection::Ascending => false,
        };
        let sorted = stable_sort(&self.sorted_indices, &keys, descending);
        self.sorted_indices = sorted;
        self.sort_state = Some(SortState { column_id: String::from_str(column_id), direction });
        match selected_data_idx {
            Some(d) => {
                let p = Self::position_of(&self.sorted_indices, d);
                proof {
                    if p is Some {
                        lemma_position_found(self.sorted_indices@, d);
                    }
                }
                self.selected_row = p;
            },
            None => {},
        }
        self.emit(DataTableEvent::ColumnSorted { column_id: String::from_str(column_id), direction });
        proof {
            assert(forall|x: usize| self.sorted_indices@.contains(x) ==> v0.order.contains(x));
            assert forall|i: int| 0 <= i < self@.order.len() implies #[trigger] self@.order[i] < self@.rows.len() by {
                assert(v0.order.contains(self@.order[i]));
            }
        }
    }

    /// Recompute the shown rows: see `rebuilt`.
    pub fn rebuild_sorted_indices(&mut self)
        ensures
            final(self).wf(),
            rebuilt(old(self)@, final(self)@),
    {
        let ghost v0 = self@;
        let mut order: Vec<usize> = Vec::new();
        let n = self.rows.len();
        for i in 0..n
            invariant
                n == self.rows@.len(),
                self@ == v0,
                order@ == filtered_upto(v0.rows, v0.columns, v0.filter, i as nat),
        {
            if self.row_matches_filter(&self.rows[i]) {
                order.push(i);
            }
        }
        proof {
            lemma_filtered_bounds(v0.rows, v0.columns, v0.filter, n as nat);
        }
        self.sorted_indices = order;
        match &self.sort_state {
            Some(state) => {
                let column_id = state.column_id.clone();
                let direction = state.direction;
                self.sort_by(column_id.as_str(), direction);
            },
            None => {},
        }
    }
}

impl<R: TableRow> DataTable<R> {
    /// Set the columns (the shown rows are recomputed when rows change).
    pub fn with_columns(self, columns: Vec<Column>) -> (t: Self)
        requires
            self.wf(),
        ensures
            t.wf(),
            t@ == (TableView { columns: columns@, ..self@ }),
    {
        let mut t = self;
        t.columns = columns;
        t
    }

    /// Set the rows, drop the numbers read from the old ones, and recompute
    /// the shown rows.
    pub fn with_rows(self, rows: Vec<R>) -> (t: Self)
        ensures
            t.wf(),
            rebuilt(
                TableView {
                    rows: rows@,
                    number_keys: Seq::<(Seq<char>, Seq<Option<i128>>)>::empty(),
                    ..self@
                },
                t@,
            ),
    {
        let mut t = self;
        t.rows = rows;
        t.number_keys = Vec::new();
        assert(t@.number_keys =~= Seq::<(Seq<char>, Seq<Option<i128>>)>::empty());
        t.rebuild_sorted_indices();
        t
    }

    /// Set the selection mode.
    pub fn with_selection_mode(self, mode: SelectionMode) -> (t: Self)
        requires
            self.wf(),
        ensures
            t.wf(),
            t@ == (TableView { mode, ..self@ }),
    {
        let mut t = self;
        t.selection_mode = mode;
        t
    }

    /// Set the layout and behaviour settings.
    pub fn with_config(self, config: DataTableConfig) -> (t: Self)
        requires
            self.wf(),
        ensures
            t.wf(),
            t@ == (TableView { config, ..self@ }),
    {
        let mut t = self;
        t.config = config;
        t
    }

    /// Set the title shown in the border.
    pub fn with_title(self, title: impl TextArg) -> (t: Self)
        requires
            self.wf(),
        ensures
            t.wf(),
            t@ == (TableView { title: Some(title.text_view()), ..self@ }),
    {
        let mut t = self;
        t.title = Some(title.into_text());
        t
    }

    /// Set whether scrolling is enabled.
    pub fn scrollable(self, scrollable: bool) -> (t: Self)
        requires
            self.wf(),
        ensures
            t.wf(),
            t@ == (TableView { config: DataTableConfig { scrollable, ..self@.config }, ..self@ }),
    {
        let mut t = self;
        t.config.scrollable = scrollable;
        t
    }

    /// The table's identifier.
    pub fn id(&self) -> (r: &str)
        ensures
            r@ == self@.id,
    {
        self.id.as_str()
    }

    /// Replace the rows: see `rows_replaced`.
    pub fn set_rows(&mut self, rows: Vec<R>)
        ensures
            final(self).wf(),
            rows_replaced(old(self)@, final(self)@, rows@),
    {
        let ghost new_rows = rows@;
        self.rows = rows;
        self.number_keys = Vec::new();
        assert(self@.number_keys =~= Seq::<(Seq<char>, Seq<Option<i128>>)>::empty());
        self.rebuild_sorted_indices();
        let ghost mid = self@;
        match self.selected_row {
            Some(r) => {
                if r >= self.rows.len() {
                    if self.rows.len() == 0 {
                        self.selected_row = None;
                    } else {
                        self.selected_row = Some(self.rows.len() - 1);
                    }
                }
            },
            None => {},
        }
        assert(rebuilt(
            TableView {
                rows: new_rows,
                number_keys: Seq::<(Seq<char>, Seq<Option<i128>>)>::empty(),
                ..old(self)@
            },
            mid,
        ));
    }

    /// Add a row at the end, and recompute the shown rows. Numbers read for
    /// floating-point based columns stay with the rows they were read from;
    /// the new row has none until they are set again.
    pub fn push_row(&mut self, row: R)
        ensures
            final(self).wf(),
            rebuilt(TableView { rows: old(self)@.rows.push(row), ..old(self)@ }, final(self)@),
    {
        self.rows.push(row);
        self.rebuild_sorted_indices();
    }

    /// Remove every row (and the selection, and the numbers read from the
    /// rows).
    pub fn clear_rows(&mut self)
        ensures
            final(self).wf(),
            final(self)@ == (TableView {
                rows: Seq::<R>::empty(),
                order: Seq::<usize>::empty(),
                selected_row: None,
                number_keys: Seq::<(Seq<char>, Seq<Option<i128>>)>::empty(),
                ..old(self)@
            }),
    {
        self.rows.clear();
        self.number_keys.clear();
        assert(self@.number_keys =~= Seq::<(Seq<char>, Seq<Option<i128>>)>::empty());
        self.sorted_indices.clear();
        self.selected_row = None;
    }

    /// The number of data rows.
    pub fn row_count(&self) -> (n: usize)
        ensures
            n == self@.rows.len(),
    {
        self.rows.len()
    }

    /// The data row at `index`, if there is one.
    pub fn get_row(&self, index: usize) -> (r: Option<&R>)
        ensures
            match r {
                Some(x) => index < self@.rows.len() && *x == self@.rows[index as int],
                None => index >= self@.rows.len(),
            },
    {
        if index < self.rows.len() {
            Some(&self.rows[index])
        } else {
            None
        }
    }

    /// The selected data row, if the selection is on a shown row.
    pub fn selected_row(&self) -> (r: Option<&R>)
        requires
            self.wf(),
        ensures
            match selected_data(self@) {
                Some(d) => r is Some && *r.unwrap() == self@.rows[d as int],
                None => r is None,
            },
    {
        match self.selected_row_index() {
            Some(d) => Some(&self.rows[d]),
            None => None,
        }
    }

    /// The selected column, as an index among the visible columns.
    pub fn selected_column_index(&self) -> (r: Option<usize>)
        ensures
            r == self@.selected_column,
    {
        self.selected_column
    }

    /// Select the shown row at display index `index`: see `select_row_spec`.
    pub fn select_row(&mut self, index: usize)
        requires
            old(self).wf(),
        ensures
            final(self).wf(),
            final(self)@ == select_row_spec(old(self)@, index),
    {
        if index < self.sorted_indices.len() {
            self.selected_row = Some(index);
            let data_idx = self.sorted_indices[index];
            self.emit(DataTableEvent::RowSelected(data_idx));
            let column = self.selected_column;
            self.emit(DataTableEvent::SelectionChanged { row: Some(data_idx), column });
        }
    }

    /// Select the next row down: see `select_next_row_spec`.
    pub fn select_next_row(&mut self)
        requires
            old(self).wf(),
        ensures
            final(self).wf(),
            final(self)@ == select_next_row_spec(old(self)@),
    {
        let n = self.sorted_indices.len();
        if n == 0 {
            return ;
        }
        let new_idx = match self.selected_row {
            Some(idx) => if idx >= n - 1 {
                n - 1
            } else {
                idx + 1
            },
            None => 0,
        };
        self.select_row(new_idx);
    }

    /// Select the next row up: see `select_prev_row_spec`.
    pub fn select_prev_row(&mut self)
        requires
            old(self).wf(),
        ensures
            final(self).wf(),
            final(self)@ == select_prev_row_spec(old(self)@),
    {
        if self.sorted_indices.len() == 0 {
            return ;
        }
        let new_idx = match self.selected_row {
            Some(idx) => if idx > 0 {
                idx - 1
            } else {
                0
            },
            None => 0,
        };
        self.select_row(new_idx);
    }

    /// Select the first shown row.
    pub fn select_first_row(&mut self)
        requires
            old(self).wf(),
        ensures
            final(self).wf(),
            final(self)@ == select_first_spec(old(self)@),
    {
        if self.sorted_indices.len() > 0 {
            self.select_row(0);
        }
    }

    /// Select the last shown row.
    pub fn select_last_row(&mut self)
        requires
            old(self).wf(),
        ensures
            final(self).wf(),
            final(self)@ == select_last_spec(old(self)@),
    {
        let n = self.sorted_indices.len();
        if n > 0 {
            self.select_row(n - 1);
        }
    }

    /// The visible columns, in order.
    pub fn visible_columns(&self) -> (r: Vec<&Column>)
        ensures
            r@.len() == visible_indices(self@.columns).len(),
            forall|i: int|
                0 <= i < r@.len() ==> *r@[i] == self@.columns[visible_indices(self@.columns)[i]],
    {
        let mut r: Vec<&Column> = Vec::new();
        let n = self.columns.len();
        let ghost cols = self@.columns;
        assert(cols.take(0) =~= Seq::<Column>::empty());
        for i in 0..n
            invariant
                n == cols.len(),
                cols == self@.columns,
                r@.len() == visible_indices(cols.take(i as int)).len(),
                forall|j: int|
                    0 <= j < r@.len() ==> *r@[j] == cols[visible_indices(cols.take(i as int))[j]],
        {
            assert(cols.take(i + 1).drop_last() =~= cols.take(i as int));
            proof {
                lemma_visible_bounds(cols.take(i as int));
            }
            if self.columns[i].is_visible() {
                r.push(&self.columns[i]);
            }
        }
        assert(cols.take(n as int) =~= cols);
        r
    }

    /// Select the visible column at `index`: see `select_column_spec`.
    pub fn select_column(&mut self, index: usize)
        requires
            old(self).wf(),
        ensures
            final(self).wf(),
            final(self)@ == select_column_spec(old(self)@, index),
    {
        let visible_count = self.visible_columns().len();
        if index < visible_count {
            self.selected_column = Some(index);
            let row = self.selected_row_index();
            self.emit(DataTableEvent::SelectionChanged { row, column: Some(index) });
        }
    }

    /// Select the next visible column: see `select_next_column_spec`.
    pub fn select_next_column(&mut self)
        requires
            old(self).wf(),
        ensures
            final(self).wf(),
            final(self)@ == select_next_column_spec(old(self)@),
    {
        let visible_count = self.visible_columns().len();
        if visible_count == 0 {
            return ;
        }
        let new_idx = match self.selected_column {
            Some(idx) => if idx >= visible_count - 1 {
                visible_count - 1
            } else {
                idx + 1
            },
            None => 0,
        };
        self.select_column(new_idx);
    }

    /// Select the previous visible column: see `select_prev_column_spec`.
    pub fn select_prev_column(&mut self)
        requires
            old(self).wf(),
        ensures
            final(self).wf(),
            final(self)@ == select_prev_column_spec(old(self)@),
    {
        let visible_count = self.visible_columns().len();
        if visible_count == 0 {
            return ;
        }
        let new_idx = match self.selected_column {
            Some(idx) => if idx > 0 {
                idx - 1
            } else {
                0
            },
            None => 0,
        };
        self.select_column(new_idx);
    }

    /// Sort by the column `column_id`, in the other direction when already
    /// sorted by it, ascending otherwise.
    pub fn toggle_sort(&mut self, column_id: &str)
        requires
            old(self).wf(),
        ensures
            final(self).wf(),
            sorted_by(old(self)@, final(self)@, column_id@, toggled_direction(old(self)@, column_id@)),
    {
        let new_direction = match &self.sort_state {
            Some(state) => if text_eq(state.column_id.as_str(), column_id) {
                state.direction.toggle()
            } else {
                SortDirection::Ascending
            },
            None => SortDirection::Ascending,
        };
        self.sort_by(column_id, new_direction);
    }

    /// Drop the sort and go back to data order (filtered).
    pub fn clear_sort(&mut self)
        ensures
            final(self).wf(),
            rebuilt(TableView { sort: None, ..old(self)@ }, final(self)@),
    {
        self.sort_state = None;
        self.rebuild_sorted_indices();
    }

    /// Set the filter: see `filter_set`.
    pub fn set_filter(&mut self, filter: impl TextArg)
        ensures
            final(self).wf(),
            filter_set(old(self)@, final(self)@, filter.text_view()),
    {
        let ghost f = filter.text_view();
        self.filter = filter.into_text();
        self.rebuild_sorted_indices();
        let ghost mid = self@;
        match self.selected_row {
            Some(selected) => {
                if selected >= self.sorted_indices.len() {
                    if self.sorted_indices.len() == 0 {
                        self.selected_row = None;
                    } else {
                        self.selected_row = Some(0);
                    }
                }
            },
            None => {},
        }
        self.scroll_offset = 0;
        assert(rebuilt(TableView { filter: f, ..old(self)@ }, mid));
    }

    /// The current filter.
    pub fn filter(&self) -> (r: &str)
        ensures
            r@ == self@.filter,
    {
        self.filter.as_str()
    }

    /// Clear the filter.
    pub fn clear_filter(&mut self)
        ensures
            final(self).wf(),
            filter_set(old(self)@, final(self)@, Seq::<char>::empty()),
    {
        self.set_filter(String::new());
    }

    /// The number of shown rows.
    pub fn filtered_row_count(&self) -> (n: usize)
        ensures
            n == self@.order.len(),
    {
        self.sorted_indices.len()
    }

    /// Page down: see `page_down_spec`.
    pub fn page_down(&mut self)
        requires
            old(self).wf(),
        ensures
            final(self).wf(),
            final(self)@ == page_down_spec(old(self)@),
    {
        let n = self.sorted_indices.len();
        if n == 0 {
            return ;
        }
        let visible_rows = self.last_visible_height;
        let last = n - 1;
        let new_idx = match self.selected_row {
            Some(idx) => if idx >= last || visible_rows >= last - idx {
                last
            } else {
                idx + visible_rows
            },
            None => if visible_rows < last {
                visible_rows
            } else {
                last
            },
        };
        self.select_row(new_idx);
    }

    /// Page up: see `page_up_spec`.
    pub fn page_up(&mut self)
        requires
            old(self).wf(),
        ensures
            final(self).wf(),
            final(self)@ == page_up_spec(old(self)@),
    {
        if self.sorted_indices.len() == 0 {
            return ;
        }
        let visible_rows = self.last_visible_height;
        let new_idx = match self.selected_row {
            Some(idx) => if idx >= visible_rows {
                idx - visible_rows
            } else {
                0
            },
            None => 0,
        };
        self.select_row(new_idx);
    }

    fn area_rows(&self, area_height: u16) -> (h: usize)
        ensures
            h == rows_area(self@.config, area_height),
    {
        let header_height: usize = if self.config.show_header {
            1 + self.config.header_margin as usize
        } else {
            0
        };
        let used = header_height + 2;
        let height = area_height as usize;
        if height >= used {
            height - used
        } else {
            0
        }
    }

    /// The display indices of the rows that fit in an area `area_height`
    /// lines high, from the scroll offset; remembers the page height.
    pub fn visible_row_range(&mut self, area_height: u16) -> (r: std::ops::Range<usize>)
        requires
            old(self).wf(),
        ensures
            final(self).wf(),
            final(self)@ == (TableView { page: rows_area(old(self)@.config, area_height), ..old(self)@ }),
            r.start == old(self)@.scroll,
            r.end == vstd::math::min(
                old(self)@.scroll + rows_area(old(self)@.config, area_height),
                old(self)@.order.len() as int,
            ),
    {
        let available = self.area_rows(area_height);
        self.last_visible_height = available;
        let start = self.scroll_offset;
        let n = self.sorted_indices.len();
        let end = if available >= n || start >= n - available {
            n
        } else {
            start + available
        };
        start..end
    }

    /// Scroll so that the selected row shows in an area `area_height` lines
    /// high: see `scroll_to_selection`.
    pub fn ensure_selection_visible(&mut self, area_height: u16)
        requires
            old(self).wf(),
        ensures
            final(self).wf(),
            final(self)@ == (TableView {
                scroll: scroll_to_selection(old(self)@, area_height),
                ..old(self)@
            }),
    {
        if !self.config.scrollable {
            return ;
        }
        let selected = match self.selected_row {
            Some(s) => s,
            None => {
                return ;
            },
        };
        let visible_rows = self.area_rows(area_height);
        if visible_rows == 0 {
            return ;
        }
        let scroll = self.scroll_offset;
        if selected < scroll {
            self.scroll_offset = selected;
        } else if selected - scroll >= visible_rows {
            self.scroll_offset = selected - (visible_rows - 1);
        }
    }

    /// The data index of the shown row at display index `index`, if any.
    fn shown_at(&self, index: usize) -> (r: Option<usize>)
        ensures
            r == (if index < self@.order.len() {
                Some(self@.order[index as int])
            } else {
                None
            }),
    {
        if index < self.sorted_indices.len() {
            Some(self.sorted_indices[index])
        } else {
            None
        }
    }

    fn toggle_selected_column_sort(&mut self)
        requires
            old(self).wf(),
        ensures
            final(self).wf(),
            sort_key_effect(old(self)@, final(self)@),
    {
        match self.selected_column {
            Some(col_idx) => {
                let visible_cols = self.visible_columns();
                if col_idx < visible_cols.len() {
                    let col_id = String::from_str(visible_cols[col_idx].id());
                    self.toggle_sort(col_id.as_str());
                }
            },
            None => {},
        }
    }

    /// Handle an input event: see `table_key_effect`; other events are not
    /// used.
    pub fn handle_event(&mut self, event: &Event) -> (r: EventResult)
        requires
            old(self).wf(),
        ensures
            final(self).wf(),
            match *event {
                Event::Key(key) => table_key_effect(old(self)@, final(self)@, key, r),
                _ => final(self)@ == old(self)@ && r == EventResult::Unhandled,
            },
    {
        let key = match event {
            Event::Key(k) => *k,
            _ => {
                return EventResult::Unhandled;
            },
        };
        match key.kind {
            KeyEventKind::Press => {},
            _ => {
                return EventResult::Unhandled;
            },
        }
        let rows_mode = match self.selection_mode {
            SelectionMode::Row | SelectionMode::Cell => true,
            _ => false,
        };
        let cols_mode = match self.selection_mode {
            SelectionMode::Column | SelectionMode::Cell => true,
            _ => false,
        };
        match key.code {
            KeyCode::Up | KeyCode::Char('k') => {
                if rows_mode {
                    self.select_prev_row();
                    EventResult::Handled
                } else {
                    EventResult::Unhandled
                }
            },
            KeyCode::Down | KeyCode::Char('j') => {
                if rows_mode {
                    self.select_next_row();
                    EventResult::Handled
                } else {
                    EventResult::Unhandled
                }
            },
            KeyCode::Left | KeyCode::Char('h') => {
                if cols_mode {
                    self.select_prev_column();
                    EventResult::Handled
                } else {
                    EventResult::Unhandled
                }
            },
            KeyCode::Right | KeyCode::Char('l') => {
                if cols_mode {
                    self.select_next_column();
                    EventResult::Handled
                } else {
                    EventResult::Unhandled
                }
            },
            KeyCode::PageDown => {
                self.page_down();
                EventResult::Handled
            },
            KeyCode::PageUp => {
                self.page_up();
                EventResult::Handled
            },
            KeyCode::Home => {
                self.select_first_row();
                EventResult::Handled
            },
            KeyCode::End => {
                self.select_last_row();
                EventResult::Handled
            },
            KeyCode::Enter => {
                match self.selected_row {
                    Some(idx) => match self.shown_at(idx) {
                        Some(d) => self.emit(DataTableEvent::RowActivated(d)),
                        None => {},
                    },
                    None => {},
                }
                EventResult::Handled
            },
            KeyCode::Char('s') => {
                if cols_mode {
                    self.toggle_selected_column_sort();
                    EventResult::Handled
                } else {
                    EventResult::Unhandled
                }
            },
            _ => EventResult::Unhandled,
        }
    }

    /// Take the pending events, oldest first.
    pub fn take_events(&mut self) -> (es: Vec<DataTableEvent>)
        requires
            old(self).wf(),
        ensures
            final(self).wf(),
            table_events_view(es@) == old(self)@.events,
            final(self)@ == (TableView { events: Seq::<TableEventView>::empty(), ..old(self)@ }),
    {
        let mut es: Vec<DataTableEvent> = Vec::new();
        std::mem::swap(&mut es, &mut self.events);
        assert(table_events_view(self.events@) =~= Seq::<TableEventView>::empty());
        es
    }

    /// Whether any event is pending.
    pub fn has_events(&self) -> (b: bool)
        ensures
            b == (self@.events.len() > 0),
    {
        self.events.len() > 0
    }

    /// Gain focus: see `focus_spec`.
    pub fn on_focus(&mut self)
        requires
            old(self).wf(),
        ensures
            final(self).wf(),
            final(self)@ == focus_spec(old(self)@),
    {
        self.emit(DataTableEvent::FocusGained);
        let selecting = match self.selection_mode {
            SelectionMode::Disabled => false,
            _ => true,
        };
        if self.selected_row.is_none() && self.rows.len() > 0 && selecting {
            self.selected_row = Some(0);
        }
        let cols_mode = match self.selection_mode {
            SelectionMode::Column | SelectionMode::Cell => true,
            _ => false,
        };
        if self.selected_column.is_none() && cols_mode {
            self.selected_column = Some(0);
        }
    }

    /// Lose focus: announce it.
    pub fn on_blur(&mut self)
        requires
            old(self).wf(),
        ensures
            final(self).wf(),
            final(self)@ == (TableView {
                events: old(self)@.events.push(TableEventView::FocusLost),
                ..old(self)@
            }),
    {
        self.emit(DataTableEvent::FocusLost);
    }

    /// Record the numbers the application read from the cells of a
    /// floating-point based column, then recompute the shown rows.
    pub fn set_number_keys(&mut self, keys: NumberKeys)
        ensures
            final(self).wf(),
            rebuilt(
                TableView {
                    number_keys: old(self)@.number_keys.push((keys.column_id@, keys.keys@)),
                    ..old(self)@
                },
                final(self)@,
            ),
    {
        let ghost entry = (keys.column_id@, keys.keys@);
        self.number_keys.push(keys);
        assert(self@.number_keys =~= old(self)@.number_keys.push(entry));
        self.rebuild_sorted_indices();
    }

    /// The columns, in order.
    pub fn columns(&self) -> (r: &Vec<Column>)
        ensures
            r@ == self@.columns,
    {
        &self.columns
    }

    /// The data rows, in data order.
    pub fn rows(&self) -> (r: &Vec<R>)
        ensures
            r@ == self@.rows,
    {
        &self.rows
    }

    /// The data indices of the shown rows, in display order.
    pub fn sorted_indices(&self) -> (r: &Vec<usize>)
        ensures
            r@ == self@.order,
    {
        &self.sorted_indices
    }

    /// The selected row, as a display index.
    pub fn selected_display_row(&self) -> (r: Option<usize>)
        ensures
            r == self@.selected_row,
    {
        self.selected_row
    }

    /// The header text of a column (see `header_text`).
    pub fn header_label(&self, column: &Column) -> (s: String)
        ensures
            s@ == header_text(self@, *column),
    {
        let mut label = String::from_str(column.title());
        match &self.sort_state {
            Some(st) => {
                if text_eq(st.column_id.as_str(), column.id()) {
                    label.append(" ");
                    match st.direction {
                        SortDirection::Ascending => label.append(self.config.sort_asc_symbol.as_str()),
                        SortDirection::Descending => label.append(
                            self.config.sort_desc_symbol.as_str(),
                        ),
                    }
                }
            },
            None => {},
        }
        label
    }

    /// The current sort, if any.
    pub fn sort_state(&self) -> (r: Option<&SortState>)
        ensures
            match r {
                Some(st) => self@.sort == Some((st.column_id@, st.direction)),
                None => self@.sort is None,
            },
    {
        match &self.sort_state {
            Some(st) => Some(st),
            None => None,
        }
    }

    /// The layout and behaviour settings.
    pub fn config(&self) -> (r: &DataTableConfig)
        ensures
            *r == self@.config,
    {
        &self.config
    }

    /// The title, if any.
    pub fn title(&self) -> (r: Option<&str>)
        ensures
            match r {
                Some(t) => self@.title == Some(t@),
                None => self@.title is None,
            },
    {
        match &self.title {
            Some(t) => Some(t.as_str()),
            None => None,
        }
    }

    /// The selection mode.
    pub fn selection_mode(&self) -> (m: SelectionMode)
        ensures
            m == self@.mode,
    {
        self.selection_mode
    }

    /// The scroll offset, in display rows.
    pub fn scroll_offset(&self) -> (n: usize)
        ensures
            n == self@.scroll,
    {
        self.scroll_offset
    }
}

} // verus!
