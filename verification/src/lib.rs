//! The state of a tabbed text and markdown editor: the open files, the active
//! tab, the view mode and the font size, and the rules by which user actions
//! change them.

pub mod buffer;
pub mod constants;
pub mod decimal;
pub mod file;
pub mod handler;
pub mod key_bindings;
pub mod laws;
pub mod message;
pub mod paths;
pub mod preview;
pub mod state;
