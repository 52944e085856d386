//! Data table: columns, rows, selection, sorting, filtering and scrolling.
pub mod column;
pub mod config;
pub mod events;
pub mod looks;
pub mod row;
pub mod sorting;
pub mod types;
pub mod table;
