//! Keys of the terminal interface.

use vstd::prelude::*;

verus! {

/// A key press, as the menus see it.
#[derive(Debug, Clone, Copy, PartialEq, Eq, Structural)]
pub enum Key {
    Char(char),
    Up,
    Down,
    Enter,
    Esc,
    Backspace,
    Tab,
    /// Any key the menus do not use.
    Other,
}

} // verus!
