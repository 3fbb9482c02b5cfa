//! State for two terminal-UI widgets of a file-transfer interface: a
//! scrollable log view and a static title label.
//!
//! The substance of the crate is [`scroll::OwnStates`], a bounded cursor
//! into a variable-length list of rendered lines. It translates discrete
//! navigation commands (line up/down, page up/down, jump to start/end)
//! into clamped cursor moves and reports whether the visible selection
//! changed, so the owning view knows when to redraw. Drawing itself is
//! left to the rendering layer around the crate.

pub mod keys;
pub mod scroll;
pub mod title;
