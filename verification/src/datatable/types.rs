//! Enums and small types of the data table.
use vstd::prelude::*;

verus! {

/// How a column's values are read for sorting.
#[derive(Debug, Clone, Copy, PartialEq, Eq, Structural)]
pub enum ColumnType {
    /// Plain text, sorted by character.
    Text,
    /// Integers (commas ignored).
    Integer,
    /// Floating-point numbers.
    Float,
    /// Percentages ("45%" or "0.45").
    Percent,
    /// Byte sizes ("1.5 GB", "500 KB").
    Size,
    /// Date/time (ISO 8601, sorted as text).
    DateTime,
    /// Duration (sorted as text).
    Duration,
}

impl Default for ColumnType {
    fn default() -> (t: ColumnType)
        ensures
            t == ColumnType::Text,
    {
        ColumnType::Text
    }
}

impl ColumnType {
    /// Whether the values of this type are read as floating-point numbers
    /// (the application reads them).
    pub open spec fn is_float_based(self) -> bool {
        self == ColumnType::Float || self == ColumnType::Percent || self == ColumnType::Size
    }
}

/// Text alignment within a column.
#[derive(Debug, Clone, Copy, PartialEq, Eq, Structural)]
pub enum ColumnAlign {
    Left,
    Center,
    Right,
}

impl Default for ColumnAlign {
    fn default() -> (a: ColumnAlign)
        ensures
            a == ColumnAlign::Left,
    {
        ColumnAlign::Left
    }
}

/// How a column's width is computed.
#[derive(Debug, Clone, Copy, PartialEq, Eq, Structural)]
pub enum ColumnWidth {
    /// Fixed character width.
    Fixed(u16),
    /// Percentage of the table width.
    Percent(u8),
    /// Minimum width.
    Min(u16),
    /// Maximum width.
    Max(u16),
    /// Fill remaining space with a flex factor.
    Fill(u16),
    /// Sized by content, with an optional maximum.
    Auto { max: Option<u16> },
}

impl Default for ColumnWidth {
    fn default() -> (w: ColumnWidth)
        ensures
            w == (ColumnWidth::Auto { max: None }),
    {
        ColumnWidth::Auto { max: None }
    }
}

/// Sort direction.
#[derive(Debug, Clone, Copy, PartialEq, Eq, Structural)]
pub enum SortDirection {
    Ascending,
    Descending,
}

impl SortDirection {
    /// The other direction.
    pub open spec fn flipped(self) -> SortDirection {
        match self {
            SortDirection::Ascending => SortDirection::Descending,
            SortDirection::Descending => SortDirection::Ascending,
        }
    }

    /// Toggle between ascending and descending.
    pub fn toggle(&self) -> (d: SortDirection)
        ensures
            d == self.flipped(),
    {
        match self {
            SortDirection::Ascending => SortDirection::Descending,
            SortDirection::Descending => SortDirection::Ascending,
        }
    }
}

/// Toggling a direction twice gives it back, and toggling always changes it.
pub proof fn lemma_toggle_involution(d: SortDirection)
    ensures
        d.flipped().flipped() == d,
        d.flipped() != d,
{
}

/// The current sort of a table.
#[derive(Debug, Clone)]
pub struct SortState {
    /// The column sorted by.
    pub column_id: String,
    /// The direction.
    pub direction: SortDirection,
}

/// How selection works in a table.
#[derive(Debug, Clone, Copy, PartialEq, Eq, Structural)]
pub enum SelectionMode {
    /// No selection.
    Disabled,
    /// Rows only.
    Row,
    /// Columns only (header focus).
    Column,
    /// Rows and columns (cell selection).
    Cell,
}

impl Default for SelectionMode {
    fn default() -> (m: SelectionMode)
        ensures
            m == SelectionMode::Row,
    {
        SelectionMode::Row
    }
}

} // verus!
