//! Which of the table's styles a header, a row or a cell takes. The styles
//! themselves (colours) are the application's; these functions say which one
//! wins.
use vstd::prelude::*;

use super::types::SelectionMode;

verus! {

/// Whether a selection mode selects rows.
pub open spec fn selects_rows(mode: SelectionMode) -> bool {
    mode == SelectionMode::Row || mode == SelectionMode::Cell
}

/// Whether a selection mode selects columns.
pub open spec fn selects_columns(mode: SelectionMode) -> bool {
    mode == SelectionMode::Column || mode == SelectionMode::Cell
}

/// The style a column header takes.
#[derive(Debug, Clone, Copy, PartialEq, Eq, Structural)]
pub enum HeaderLook {
    /// The selected-column style (focused or not, as the table is).
    SelectedColumn,
    /// The column's own header style.
    ColumnHeader,
    /// The common header text style.
    Plain,
}

/// The style a row takes.
#[derive(Debug, Clone, Copy, PartialEq, Eq, Structural)]
pub enum RowLook {
    /// The selected-row style (focused or not, as the table is).
    Selected,
    /// The row's own style.
    Own,
    /// The alternate-row style.
    Alternate,
    /// The common row style.
    Plain,
}

/// The style a body cell takes.
#[derive(Debug, Clone, Copy, PartialEq, Eq, Structural)]
pub enum CellLook {
    /// The selected-cell style (focused or not, as the table is).
    Selected,
    /// The style of its row (see `RowLook`).
    Row,
    /// The cell's own style, set on its row.
    Own,
    /// The column's value style.
    ColumnValue,
}

/// A column header: the selected-column style when columns are selectable
/// and it is the selected one, else its own header style if it has one, else
/// the common one.
pub open spec fn header_look_spec(
    mode: SelectionMode,
    is_selected_column: bool,
    has_own_style: bool,
) -> HeaderLook {
    if selects_columns(mode) && is_selected_column {
        HeaderLook::SelectedColumn
    } else if has_own_style {
        HeaderLook::ColumnHeader
    } else {
        HeaderLook::Plain
    }
}

/// A row at display position `display_idx`: the selected-row style when rows
/// are selectable and it is the selected one; else its own style if it has
/// one; else, where an alternate style is set, that on odd positions; else
/// the common one.
pub open spec fn row_look_spec(
    mode: SelectionMode,
    is_selected_row: bool,
    has_own_style: bool,
    has_alternate: bool,
    display_idx: usize,
) -> RowLook {
    if is_selected_row && selects_rows(mode) {
        RowLook::Selected
    } else if has_own_style {
        RowLook::Own
    } else if has_alternate && display_idx % 2 == 1 {
        RowLook::Alternate
    } else {
        RowLook::Plain
    }
}

/// A body cell: the selected-cell style in cell mode on the selected row and
/// column; the row's style on a selected row where rows are selectable;
/// else its own style, the column's value style, or the row's, the first
/// that is set.
pub open spec fn cell_look_spec(
    mode: SelectionMode,
    is_selected_row: bool,
    is_selected_column: bool,
    has_own_style: bool,
    has_column_style: bool,
) -> CellLook {
    if mode == SelectionMode::Cell && is_selected_row && is_selected_column {
        CellLook::Selected
    } else if is_selected_row && selects_rows(mode) {
        CellLook::Row
    } else if has_own_style {
        CellLook::Own
    } else if has_column_style {
        CellLook::ColumnValue
    } else {
        CellLook::Row
    }
}

fn rows_mode(mode: SelectionMode) -> (b: bool)
    ensures
        b == selects_rows(mode),
{
    match mode {
        SelectionMode::Row | SelectionMode::Cell => true,
        _ => false,
    }
}

fn columns_mode(mode: SelectionMode) -> (b: bool)
    ensures
        b == selects_columns(mode),
{
    match mode {
        SelectionMode::Column | SelectionMode::Cell => true,
        _ => false,
    }
}

/// The style a column header takes (see `header_look_spec`).
pub fn header_look(mode: SelectionMode, is_selected_column: bool, has_own_style: bool) -> (l:
    HeaderLook)
    ensures
        l == header_look_spec(mode, is_selected_column, has_own_style),
{
    if columns_mode(mode) && is_selected_column {
        HeaderLook::SelectedColumn
    } else if has_own_style {
        HeaderLook::ColumnHeader
    } else {
        HeaderLook::Plain
    }
}

/// The style a row takes (see `row_look_spec`).
pub fn row_look(
    mode: SelectionMode,
    is_selected_row: bool,
    has_own_style: bool,
    has_alternate: bool,
    display_idx: usize,
) -> (l: RowLook)
    ensures
        l == row_look_spec(mode, is_selected_row, has_own_style, has_alternate, display_idx),
{
    if is_selected_row && rows_mode(mode) {
        RowLook::Selected
    } else if has_own_style {
        RowLook::Own
    } else if has_alternate && display_idx % 2 == 1 {
        RowLook::Alternate
    } else {
        RowLook::Plain
    }
}

/// The style a body cell takes (see `cell_look_spec`).
pub fn cell_look(
    mode: SelectionMode,
    is_selected_row: bool,
    is_selected_column: bool,
    has_own_style: bool,
    has_column_style: bool,
) -> (l: CellLook)
    ensures
        l == cell_look_spec(
            mode,
            is_selected_row,
            is_selected_column,
            has_own_style,
            has_column_style,
        ),
{
    let is_cell_mode = match mode {
        SelectionMode::Cell => true,
        _ => false,
    };
    if is_cell_mode && is_selected_row && is_selected_column {
        CellLook::Selected
    } else if is_selected_row && rows_mode(mode) {
        CellLook::Row
    } else if has_own_style {
        CellLook::Own
    } else if has_column_style {
        CellLook::ColumnValue
    } else {
        CellLook::Row
    }
}

} // verus!
