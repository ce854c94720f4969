//! A bordered box with an alignable title, and the key-driven controller that
//! picks the title's alignment.
//!
//! The library is pure: rendering returns the lines of a frame, and the
//! controller updates the application state from one key event at a time.
//! Writing to a terminal and reading events from it is left to the caller.

pub mod app;
pub mod render;
pub mod title;

pub use app::{echo_row, App, Event, KeyCode, KeyEvent, CONTROL};
pub use render::{render_square, Frame, LayoutError};
pub use title::{Align, Title, TypeMode};
