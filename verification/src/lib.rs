//! Rendering-and-navigation core of a terminal screen editor.
//!
//! The library composites a full-screen redraw into one buffered write per
//! frame, translates directional key input into bounded cursor movement, and
//! exposes the session primitives (raw mode, screen size, bounded input
//! polling) that the surrounding program drives in a loop.

pub mod ansi;
pub mod buffer;
pub mod cursor;
pub mod editor;
pub mod errors;
pub mod input;
pub mod keys;
pub mod output;
pub mod session;
