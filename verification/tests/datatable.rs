use std::cmp::Ordering;

use tabitha::datatable::column::Column;
use tabitha::datatable::events::DataTableEvent;
use tabitha::datatable::looks::{cell_look, header_look, row_look, CellLook, HeaderLook, RowLook};
use tabitha::datatable::row::{SimpleRow, TableRow};
use tabitha::datatable::sorting::{compare_values, parse_integer, CellKey};
use tabitha::datatable::table::{DataTable, NumberKeys};
use tabitha::datatable::types::{ColumnType, SelectionMode, SortDirection};
use tabitha::event::{Event, EventResult, KeyCode, KeyEvent, KeyModifiers};

fn row(name: &str, size: &str) -> SimpleRow {
    SimpleRow::new().with_value("name", name).with_value("size", size)
}

fn table() -> DataTable<SimpleRow> {
    DataTable::new("files")
        .with_columns(vec![
            Column::new("name", "Name"),
            Column::new("size", "Size").with_type(ColumnType::Integer),
        ])
        .with_rows(vec![
            row("beta", "1,200"),
            row("Alpha", "300"),
            row("gamma", "n/a"),
            row("alpha two", "300"),
        ])
}

fn names(t: &DataTable<SimpleRow>) -> Vec<String> {
    t.sorted_indices()
        .iter()
        .map(|&i| t.get_row(i).unwrap().get_value("name").unwrap())
        .collect()
}

fn press(code: KeyCode) -> Event {
    Event::Key(KeyEvent::new(code, KeyModifiers::none()))
}

#[test]
fn new_table_is_empty() {
    let t: DataTable<SimpleRow> = DataTable::new("t");
    assert_eq!(t.id(), "t");
    assert_eq!(t.row_count(), 0);
    assert_eq!(t.filtered_row_count(), 0);
    assert!(t.selected_row_index().is_none());
    assert!(t.selected_column_index().is_none());
    assert_eq!(t.filter(), "");
}

#[test]
fn rows_show_in_data_order_before_sorting() {
    let t = table();
    assert_eq!(names(&t), vec!["beta", "Alpha", "gamma", "alpha two"]);
}

#[test]
fn filter_matches_any_column_ignoring_case() {
    let mut t = table();
    t.set_filter("ALPHA");
    assert_eq!(names(&t), vec!["Alpha", "alpha two"]);
    t.set_filter("1,2");
    assert_eq!(names(&t), vec!["beta"]);
    t.set_filter("zzz");
    assert_eq!(t.filtered_row_count(), 0);
    t.clear_filter();
    assert_eq!(t.filtered_row_count(), 4);
}

#[test]
fn integer_sort_reads_numbers_then_text_and_is_stable() {
    let mut t = table();
    t.sort_by("size", SortDirection::Ascending);
    assert_eq!(names(&t), vec!["Alpha", "alpha two", "beta", "gamma"]);
    t.sort_by("size", SortDirection::Descending);
    assert_eq!(names(&t), vec!["gamma", "beta", "Alpha", "alpha two"]);
    t.clear_sort();
    assert_eq!(names(&t), vec!["beta", "Alpha", "gamma", "alpha two"]);
}

#[test]
fn text_sort_is_by_character() {
    let mut t = table();
    t.sort_by("name", SortDirection::Ascending);
    assert_eq!(names(&t), vec!["Alpha", "alpha two", "beta", "gamma"]);
    let events = t.take_events();
    assert!(matches!(
        events.last(),
        Some(DataTableEvent::ColumnSorted { column_id, direction: SortDirection::Ascending })
            if column_id == "name"
    ));
}

#[test]
fn toggle_sort_flips_the_direction() {
    let mut t = table();
    t.toggle_sort("name");
    assert_eq!(names(&t), vec!["Alpha", "alpha two", "beta", "gamma"]);
    t.toggle_sort("name");
    assert_eq!(names(&t), vec!["gamma", "beta", "alpha two", "Alpha"]);
    t.toggle_sort("size");
    assert_eq!(names(&t), vec!["alpha two", "Alpha", "beta", "gamma"]);
}

#[test]
fn unknown_or_unsortable_columns_do_not_sort() {
    let mut t = DataTable::new("t")
        .with_columns(vec![Column::new("a", "A").sortable(false)])
        .with_rows(vec![SimpleRow::new().with_value("a", "2"), SimpleRow::new().with_value("a", "1")]);
    t.sort_by("a", SortDirection::Ascending);
    t.sort_by("missing", SortDirection::Ascending);
    assert_eq!(t.sorted_indices(), &vec![0, 1]);
    assert!(!t.has_events());
}

#[test]
fn selection_follows_its_row_through_a_sort() {
    let mut t = table();
    t.select_row(0);
    assert_eq!(t.selected_row_index(), Some(0));
    t.sort_by("name", SortDirection::Ascending);
    assert_eq!(t.selected_row_index(), Some(0));
    assert_eq!(t.selected_display_row(), Some(2));
    assert_eq!(t.selected_row().unwrap().get_value("name").unwrap(), "beta");
}

#[test]
fn keys_move_the_selection_within_the_rows() {
    let mut t = table();
    assert_eq!(t.handle_event(&press(KeyCode::Down)), EventResult::Handled);
    assert_eq!(t.selected_display_row(), Some(0));
    t.handle_event(&press(KeyCode::Char('j')));
    assert_eq!(t.selected_display_row(), Some(1));
    t.handle_event(&press(KeyCode::End));
    assert_eq!(t.selected_display_row(), Some(3));
    t.handle_event(&press(KeyCode::Down));
    assert_eq!(t.selected_display_row(), Some(3));
    t.handle_event(&press(KeyCode::Home));
    assert_eq!(t.selected_display_row(), Some(0));
    t.handle_event(&press(KeyCode::Up));
    assert_eq!(t.selected_display_row(), Some(0));
    assert_eq!(t.handle_event(&press(KeyCode::Left)), EventResult::Unhandled);
    assert_eq!(t.handle_event(&press(KeyCode::Char('x'))), EventResult::Unhandled);
}

#[test]
fn enter_activates_and_events_are_emitted_in_order() {
    let mut t = table();
    t.select_row(1);
    t.handle_event(&press(KeyCode::Enter));
    let events = t.take_events();
    assert!(matches!(events[0], DataTableEvent::RowSelected(1)));
    assert!(matches!(events[1], DataTableEvent::SelectionChanged { row: Some(1), column: None }));
    assert!(matches!(events[2], DataTableEvent::RowActivated(1)));
    assert_eq!(events.len(), 3);
    assert!(!t.has_events());
}

#[test]
fn paging_moves_by_the_last_laid_out_height() {
    let rows: Vec<SimpleRow> = (0..30).map(|i| row(&format!("r{}", i), "1")).collect();
    let mut t = DataTable::new("t").with_columns(vec![Column::new("name", "Name")]).with_rows(rows);
    let range = t.visible_row_range(9);
    assert_eq!(range, 0..5);
    t.page_down();
    assert_eq!(t.selected_display_row(), Some(5));
    t.page_down();
    assert_eq!(t.selected_display_row(), Some(10));
    t.page_up();
    assert_eq!(t.selected_display_row(), Some(5));
    t.page_up();
    t.page_up();
    assert_eq!(t.selected_display_row(), Some(0));
    t.select_last_row();
    t.page_down();
    assert_eq!(t.selected_display_row(), Some(29));
}

#[test]
fn scrolling_keeps_the_selection_in_view() {
    let rows: Vec<SimpleRow> = (0..30).map(|i| row(&format!("r{}", i), "1")).collect();
    let mut t = DataTable::new("t").with_columns(vec![Column::new("name", "Name")]).with_rows(rows);
    t.select_row(12);
    t.ensure_selection_visible(9);
    assert_eq!(t.scroll_offset(), 8);
    assert_eq!(t.visible_row_range(9), 8..13);
    t.select_row(3);
    t.ensure_selection_visible(9);
    assert_eq!(t.scroll_offset(), 3);
    let mut fixed = t.scrollable(false);
    fixed.select_row(29);
    fixed.ensure_selection_visible(9);
    assert_eq!(fixed.scroll_offset(), 3);
}

#[test]
fn replacing_rows_pulls_the_selection_back() {
    let mut t = table();
    t.select_row(3);
    t.set_rows(vec![row("x", "1"), row("y", "2")]);
    assert_eq!(t.selected_display_row(), Some(1));
    t.set_rows(vec![]);
    assert_eq!(t.selected_display_row(), None);
    t.push_row(row("z", "3"));
    assert_eq!(t.row_count(), 1);
    t.clear_rows();
    assert_eq!(t.row_count(), 0);
    assert_eq!(t.filtered_row_count(), 0);
}

#[test]
fn focus_selects_the_first_row_and_column() {
    let mut t = table().with_selection_mode(SelectionMode::Cell);
    t.on_focus();
    assert_eq!(t.selected_display_row(), Some(0));
    assert_eq!(t.selected_column_index(), Some(0));
    t.on_blur();
    let events = t.take_events();
    assert!(matches!(events[0], DataTableEvent::FocusGained));
    assert!(matches!(events[1], DataTableEvent::FocusLost));
    let mut off = table().with_selection_mode(SelectionMode::Disabled);
    off.on_focus();
    assert_eq!(off.selected_display_row(), None);
}

#[test]
fn column_mode_moves_columns_and_sorts_with_s() {
    let mut t = table().with_selection_mode(SelectionMode::Column);
    assert_eq!(t.handle_event(&press(KeyCode::Right)), EventResult::Handled);
    assert_eq!(t.selected_column_index(), Some(0));
    t.handle_event(&press(KeyCode::Char('l')));
    assert_eq!(t.selected_column_index(), Some(1));
    t.handle_event(&press(KeyCode::Right));
    assert_eq!(t.selected_column_index(), Some(1));
    assert_eq!(t.handle_event(&press(KeyCode::Char('s'))), EventResult::Handled);
    assert_eq!(names(&t), vec!["Alpha", "alpha two", "beta", "gamma"]);
    assert_eq!(t.handle_event(&press(KeyCode::Down)), EventResult::Unhandled);
    t.handle_event(&press(KeyCode::Char('h')));
    assert_eq!(t.selected_column_index(), Some(0));
}

#[test]
fn hidden_columns_are_not_selectable() {
    let t = DataTable::<SimpleRow>::new("t").with_columns(vec![
        Column::new("a", "A").hidden(),
        Column::new("b", "B"),
    ]);
    let visible = t.visible_columns();
    assert_eq!(visible.len(), 1);
    assert_eq!(visible[0].id(), "b");
}

#[test]
fn numbers_read_by_the_application_order_float_columns() {
    let mut t = DataTable::new("t")
        .with_columns(vec![Column::new("v", "V").with_type(ColumnType::Float)])
        .with_rows(vec![
            SimpleRow::new().with_value("v", "2.5"),
            SimpleRow::new().with_value("v", "abc"),
            SimpleRow::new().with_value("v", "-1"),
        ]);
    t.set_number_keys(NumberKeys { column_id: "v".to_string(), keys: vec![Some(25), None, Some(-10)] });
    t.sort_by("v", SortDirection::Ascending);
    assert_eq!(t.sorted_indices(), &vec![2, 0, 1]);
}

#[test]
fn cell_keys_compare_missing_numbers_then_text() {
    assert_eq!(compare_values(&CellKey::Missing, &CellKey::Number(1)), Ordering::Less);
    assert_eq!(compare_values(&CellKey::Number(5), &CellKey::Number(5)), Ordering::Equal);
    assert_eq!(compare_values(&CellKey::Number(9), &CellKey::Text(vec!['a'])), Ordering::Less);
    assert_eq!(compare_values(&CellKey::Text(vec!['b']), &CellKey::Text(vec!['a', 'z'])), Ordering::Greater);
    assert_eq!(parse_integer(&" -1,234 ".chars().collect()), Some(-1234));
    assert_eq!(parse_integer(&"12x".chars().collect()), None);
    assert_eq!(parse_integer(&"+7".chars().collect()), Some(7));
}

#[test]
fn replacing_rows_drops_the_numbers_read_from_the_old_ones() {
    let mut t = DataTable::new("t")
        .with_columns(vec![Column::new("v", "V").with_type(ColumnType::Float)])
        .with_rows(vec![SimpleRow::new().with_value("v", "b"), SimpleRow::new().with_value("v", "a")]);
    t.set_number_keys(NumberKeys { column_id: "v".to_string(), keys: vec![Some(1), Some(2)] });
    t.sort_by("v", SortDirection::Ascending);
    assert_eq!(t.sorted_indices(), &vec![0, 1]);
    t.set_rows(vec![SimpleRow::new().with_value("v", "b"), SimpleRow::new().with_value("v", "a")]);
    assert_eq!(t.sorted_indices(), &vec![1, 0]);
    t.set_number_keys(NumberKeys { column_id: "v".to_string(), keys: vec![Some(1), Some(2)] });
    t.clear_rows();
    t.push_row(SimpleRow::new().with_value("v", "b"));
    t.push_row(SimpleRow::new().with_value("v", "a"));
    assert_eq!(t.sorted_indices(), &vec![1, 0]);
}

#[test]
fn headers_show_the_sort_symbol_of_the_sorted_column() {
    let mut t = table();
    let name = Column::new("name", "Name");
    let size = Column::new("size", "Size").with_type(ColumnType::Integer);
    assert_eq!(t.header_label(&name), "Name");
    t.sort_by("size", SortDirection::Ascending);
    assert_eq!(t.header_label(&size), "Size ▲");
    assert_eq!(t.header_label(&name), "Name");
    t.sort_by("size", SortDirection::Descending);
    assert_eq!(t.header_label(&size), "Size ▼");
}

#[test]
fn the_selection_style_wins_then_own_styles() {
    assert_eq!(header_look(SelectionMode::Cell, true, true), HeaderLook::SelectedColumn);
    assert_eq!(header_look(SelectionMode::Row, true, true), HeaderLook::ColumnHeader);
    assert_eq!(header_look(SelectionMode::Row, false, false), HeaderLook::Plain);
    assert_eq!(row_look(SelectionMode::Row, true, true, true, 1), RowLook::Selected);
    assert_eq!(row_look(SelectionMode::Column, true, true, true, 1), RowLook::Own);
    assert_eq!(row_look(SelectionMode::Row, false, false, true, 1), RowLook::Alternate);
    assert_eq!(row_look(SelectionMode::Row, false, false, true, 2), RowLook::Plain);
    assert_eq!(cell_look(SelectionMode::Cell, true, true, true, true), CellLook::Selected);
    assert_eq!(cell_look(SelectionMode::Row, true, true, true, true), CellLook::Row);
    assert_eq!(cell_look(SelectionMode::Disabled, true, false, true, true), CellLook::Own);
    assert_eq!(cell_look(SelectionMode::Row, false, false, false, true), CellLook::ColumnValue);
    assert_eq!(cell_look(SelectionMode::Row, false, false, false, false), CellLook::Row);
}
