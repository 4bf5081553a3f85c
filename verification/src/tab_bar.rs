//! The row of tabs of the terminal interface: which tab a key moves to, and
//! which keys the row itself takes.

use vstd::prelude::*;
use crate::keys::Key;

verus! {

/// What the tab row does with a key.
#[derive(Debug, Clone, Copy, PartialEq, Eq, Structural)]
pub enum TabKeyAction {
    /// Move to the next tab.
    NextTab,
    /// Leave the program.
    Quit,
    /// Hand the key to the current tab.
    Forward,
}

/// What the tab row does with a key: Tab moves on and `q` or `Q` quits,
/// unless the current tab keeps the keyboard; every other key goes to the
/// current tab.
pub open spec fn tab_key_action_spec(key: Key, captured: bool) -> TabKeyAction {
    if captured {
        TabKeyAction::Forward
    } else {
        match key {
            Key::Tab => TabKeyAction::NextTab,
            Key::Char(c) => if c == 'q' || c == 'Q' { TabKeyAction::Quit } else { TabKeyAction::Forward },
            _ => TabKeyAction::Forward,
        }
    }
}

/// What the tab row does with a key, given whether the current tab keeps the
/// keyboard.
pub fn tab_key_action(key: Key, captured: bool) -> (r: TabKeyAction)
    ensures
        r == tab_key_action_spec(key, captured),
{
    if captured {
        return TabKeyAction::Forward;
    }
    match key {
        Key::Tab => TabKeyAction::NextTab,
        Key::Char(c) => if c == 'q' || c == 'Q' { TabKeyAction::Quit } else { TabKeyAction::Forward },
        _ => TabKeyAction::Forward,
    }
}

/// The tab after `current` among `count` tabs, back to the first after the
/// last.
pub fn next_tab(current: usize, count: usize) -> (r: usize)
    requires
        current < count,
    ensures
        r == (current + 1) % (count as int),
        r < count,
{
    if current + 1 == count {
        assert((current + 1) % (count as int) == 0) by (nonlinear_arith)
            requires current + 1 == count;
        0
    } else {
        assert((current + 1) % (count as int) == current + 1) by (nonlinear_arith)
            requires current + 1 < count;
        current + 1
    }
}

} // verus!
