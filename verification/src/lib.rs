//! Navigation and interaction state of a keyboard-driven viewer for tabular
//! query results: tabs of result sets, row selection, column windows, a zoomed
//! view of one row, modal key dispatch and the command line.

pub mod command;
pub mod config;
pub mod error;
pub mod input;
pub mod keys;
pub mod layout;
pub mod rows;
pub mod session;
pub mod window;
pub mod zoom;
