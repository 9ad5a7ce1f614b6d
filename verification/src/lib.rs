//! The navigation core of a terminal file browser.
//!
//! The crate holds the state that such a browser keeps between two key
//! presses: the directory it shows, the children of that directory and the
//! row the cursor is on. It never touches the filesystem or the terminal
//! itself. Whoever drives it reads directories and keys, hands the outcome in
//! as plain values, and draws what [`browser::Entries::current_view`] returns.

pub mod browser;
pub mod entry;
pub mod error;
pub mod file_table;
pub mod input;
pub mod listing;
pub mod navigation;
pub mod path;
pub mod screen;
