//! Client-side interaction core of a split-process text editor.
//!
//! The crate turns terminal input into client actions, dispatches each action
//! to a local change or to a request for the document server, and folds the
//! server's replies into the state that is drawn on screen.

pub mod application;
pub mod events;
pub mod field;
pub mod graphemes;
pub mod layout;
pub mod line_number;
pub mod protocol;
pub mod ui;
