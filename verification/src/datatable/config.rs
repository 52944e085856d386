//! Layout and behaviour settings of the data table (its colours are the
//! application's).
use vstd::prelude::*;

verus! {

/// Layout and behaviour of a data table.
#[derive(Debug, Clone)]
pub struct DataTableConfig {
    /// Whether to show the header row.
    pub show_header: bool,
    /// Blank lines after the header.
    pub header_margin: u16,
    /// Whether vertical scrolling is enabled.
    pub scrollable: bool,
    /// Symbol of an ascending sort.
    pub sort_asc_symbol: String,
    /// Symbol of a descending sort.
    pub sort_desc_symbol: String,
    /// Symbol before the selected row.
    pub highlight_symbol: String,
    /// Spacing between columns.
    pub column_spacing: u16,
}

impl Default for DataTableConfig {
    fn default() -> (c: DataTableConfig)
        ensures
            c.show_header,
            c.header_margin == 1,
            c.scrollable,
            c.sort_asc_symbol@ == "▲"@,
            c.sort_desc_symbol@ == "▼"@,
            c.highlight_symbol@ == "▶ "@,
            c.column_spacing == 1,
    {
        DataTableConfig {
            show_header: true,
            header_margin: 1,
            scrollable: true,
            sort_asc_symbol: String::from_str("▲"),
            sort_desc_symbol: String::from_str("▼"),
            highlight_symbol: String::from_str("▶ "),
            column_spacing: 1,
        }
    }
}

} // verus!
