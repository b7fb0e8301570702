//! Bootstrap core of a terminal screen editor: a cursor-position state
//! machine bounded by the current viewport, a key-event transition table
//! with a quit flag, and the row/banner rendering policy. All terminal
//! side effects (raw mode, escape sequences, blocking key reads) live
//! outside this crate; the library computes states and screen contents
//! from plain values.

pub mod editor;
pub mod render;
