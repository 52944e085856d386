//! Interactive widget state for terminal user interfaces.
pub mod animation;
pub mod clock;
pub mod comet_bar;
pub mod control;
pub mod cursor;
pub mod datatable;
pub mod debug_panel;
pub mod dev_console;
pub mod dev_overlay;
pub mod event;
pub mod log_viewer;
pub mod modal;
pub mod progress_bar;
pub mod spinner;
pub mod tab_bar;
pub mod tab_content;
pub mod text;
pub mod textbox;
