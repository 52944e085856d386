//! Events emitted by the data table.
use vstd::prelude::*;

use super::types::SortDirection;
use crate::control::ControlEvent;

verus! {

/// Events emitted by a data table.
#[derive(Debug, Clone)]
pub enum DataTableEvent {
    /// A row was selected; holds its data index.
    RowSelected(usize),
    /// A row was activated (Enter); holds its data index.
    RowActivated(usize),
    /// The table was sorted.
    ColumnSorted { column_id: String, direction: SortDirection },
    /// The selection changed.
    SelectionChanged { row: Option<usize>, column: Option<usize> },
    /// The scroll position changed.
    ScrollChanged(usize),
    /// Focus was gained.
    FocusGained,
    /// Focus was lost.
    FocusLost,
}

impl ControlEvent for DataTableEvent {}

/// A table event with its text taken by its characters.
pub enum TableEventView {
    RowSelected(usize),
    RowActivated(usize),
    ColumnSorted { column_id: Seq<char>, direction: SortDirection },
    SelectionChanged { row: Option<usize>, column: Option<usize> },
    ScrollChanged(usize),
    FocusGained,
    FocusLost,
}

/// The view of an event.
pub open spec fn table_event_view(e: DataTableEvent) -> TableEventView {
    match e {
        DataTableEvent::RowSelected(i) => TableEventView::RowSelected(i),
        DataTableEvent::RowActivated(i) => TableEventView::RowActivated(i),
        DataTableEvent::ColumnSorted { column_id, direction } => TableEventView::ColumnSorted {
            column_id: column_id@,
            direction,
        },
        DataTableEvent::SelectionChanged { row, column } => TableEventView::SelectionChanged {
            row,
            column,
        },
        DataTableEvent::ScrollChanged(i) => TableEventView::ScrollChanged(i),
        DataTableEvent::FocusGained => TableEventView::FocusGained,
        DataTableEvent::FocusLost => TableEventView::FocusLost,
    }
}

/// The views of a list of events.
pub open spec fn table_events_view(es: Seq<DataTableEvent>) -> Seq<TableEventView> {
    es.map_values(|e: DataTableEvent| table_event_view(e))
}

} // verus!
