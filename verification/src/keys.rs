//! The pressed keys the widgets react to.

use vstd::prelude::*;

verus! {

/// A pressed key, reduced to the cases the widgets distinguish.
///
/// Every key outside the closed set of navigation and focus keys is
/// `Other`; the widgets either ignore it or pass it through unchanged.
#[derive(Clone, Copy, Debug, PartialEq, Eq, Structural)]
pub enum Key {
    Up,
    Down,
    PageUp,
    PageDown,
    Home,
    End,
    Tab,
    Delete,
    Other,
}

} // verus!
