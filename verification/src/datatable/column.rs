//! Column definitions of the data table.
use vstd::prelude::*;

use super::types::{ColumnAlign, ColumnType, ColumnWidth};
use crate::text::TextArg;

verus! {

/// A table column (its colours are the application's).
#[derive(Debug, Clone)]
pub struct Column {
    id: String,
    title: String,
    column_type: ColumnType,
    align: ColumnAlign,
    width: ColumnWidth,
    sortable: bool,
    visible: bool,
}

impl Column {
    /// The column identifier.
    pub closed spec fn key(&self) -> Seq<char> {
        self.id@
    }

    /// The header title.
    pub closed spec fn heading(&self) -> Seq<char> {
        self.title@
    }

    /// The value type.
    pub closed spec fn kind(&self) -> ColumnType {
        self.column_type
    }

    /// The alignment.
    pub closed spec fn alignment(&self) -> ColumnAlign {
        self.align
    }

    /// The width rule.
    pub closed spec fn width_rule(&self) -> ColumnWidth {
        self.width
    }

    /// Whether the column can be sorted.
    pub closed spec fn can_sort(&self) -> bool {
        self.sortable
    }

    /// Whether the column is shown.
    pub closed spec fn shown(&self) -> bool {
        self.visible
    }

    /// A visible, sortable text column with automatic width and left alignment.
    pub fn new(id: impl TextArg, title: impl TextArg) -> (c: Column)
        ensures
            c.key() == id.text_view(),
            c.heading() == title.text_view(),
            c.kind() == ColumnType::Text,
            c.alignment() == ColumnAlign::Left,
            c.width_rule() == (ColumnWidth::Auto { max: None }),
            c.can_sort(),
            c.shown(),
    {
        Column {
            id: id.into_text(),
            title: title.into_text(),
            column_type: ColumnType::default(),
            align: ColumnAlign::default(),
            width: ColumnWidth::default(),
            sortable: true,
            visible: true,
        }
    }

    /// Set the value type.
    pub fn with_type(self, column_type: ColumnType) -> (c: Column)
        ensures
            c.key() == self.key(),
            c.heading() == self.heading(),
            c.kind() == column_type,
            c.alignment() == self.alignment(),
            c.width_rule() == self.width_rule(),
            c.can_sort() == self.can_sort(),
            c.shown() == self.shown(),
    {
        Column { column_type, ..self }
    }

    /// Set the alignment.
    pub fn with_align(self, align: ColumnAlign) -> (c: Column)
        ensures
            c.key() == self.key(),
            c.heading() == self.heading(),
            c.kind() == self.kind(),
            c.alignment() == align,
            c.width_rule() == self.width_rule(),
            c.can_sort() == self.can_sort(),
            c.shown() == self.shown(),
    {
        Column { align, ..self }
    }

    /// Set the width rule.
    pub fn with_width(self, width: ColumnWidth) -> (c: Column)
        ensures
            c.key() == self.key(),
            c.heading() == self.heading(),
            c.kind() == self.kind(),
            c.alignment() == self.alignment(),
            c.width_rule() == width,
            c.can_sort() == self.can_sort(),
            c.shown() == self.shown(),
    {
        Column { width, ..self }
    }

    /// Set whether the column can be sorted.
    pub fn sortable(self, sortable: bool) -> (c: Column)
        ensures
            c.key() == self.key(),
            c.heading() == self.heading(),
            c.kind() == self.kind(),
            c.alignment() == self.alignment(),
            c.width_rule() == self.width_rule(),
            c.can_sort() == sortable,
            c.shown() == self.shown(),
    {
        Column { sortable, ..self }
    }

    /// Hide the column.
    pub fn hidden(self) -> (c: Column)
        ensures
            c.key() == self.key(),
            c.heading() == self.heading(),
            c.kind() == self.kind(),
            c.alignment() == self.alignment(),
            c.width_rule() == self.width_rule(),
            c.can_sort() == self.can_sort(),
            c.shown() == false,
    {
        Column { visible: false, ..self }
    }

    /// The column identifier.
    pub fn id(&self) -> (s: &str)
        ensures
            s@ == self.key(),
    {
        self.id.as_str()
    }

    /// The header title.
    pub fn title(&self) -> (s: &str)
        ensures
            s@ == self.heading(),
    {
        self.title.as_str()
    }

    /// The value type.
    pub fn column_type(&self) -> (t: ColumnType)
        ensures
            t == self.kind(),
    {
        self.column_type
    }

    /// The alignment.
    pub fn align(&self) -> (a: ColumnAlign)
        ensures
            a == self.alignment(),
    {
        self.align
    }

    /// The width rule.
    pub fn width(&self) -> (w: ColumnWidth)
        ensures
            w == self.width_rule(),
    {
        self.width
    }

    /// Whether the column can be sorted.
    pub fn is_sortable(&self) -> (b: bool)
        ensures
            b == self.can_sort(),
    {
        self.sortable
    }

    /// Whether the column is shown.
    pub fn is_visible(&self) -> (b: bool)
        ensures
            b == self.shown(),
    {
        self.visible
    }
}

} // verus!
