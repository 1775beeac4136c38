//! The key presses that the views react to.
use vstd::prelude::*;

verus! {

/// A key press, reduced to what the views distinguish: a character, one of
/// the named keys they handle, or any other key.
#[derive(Clone, Copy, Debug, PartialEq, Eq, Structural)]
pub enum Key {
    Char(char),
    Enter,
    Esc,
    Tab,
    Backspace,
    Up,
    Down,
    Other,
}

/// `n - 1`, or 0 where `n` is 0, as `usize::saturating_sub(n, 1)` gives it.
pub open spec fn last_index(n: int) -> int {
    if n > 0 {
        n - 1
    } else {
        0
    }
}

/// The selection after `Down` in a list of `n` rows: one further, unless it is
/// already at or past the last row.
pub open spec fn select_down(selected: int, n: int) -> int {
    if selected < last_index(n) {
        selected + 1
    } else {
        selected
    }
}

/// The selection after `Up`: one back, unless it is already at the first row.
pub open spec fn select_up(selected: int) -> int {
    if selected > 0 {
        selected - 1
    } else {
        selected
    }
}

/// Moves a selection one row down in a list of `n` rows.
pub fn move_down(selected: usize, n: usize) -> (r: usize)
    ensures
        r == select_down(selected as int, n as int),
{
    if selected < n.saturating_sub(1) {
        selected + 1
    } else {
        selected
    }
}

/// Moves a selection one row up.
pub fn move_up(selected: usize) -> (r: usize)
    ensures
        r == select_up(selected as int),
{
    if selected > 0 {
        selected - 1
    } else {
        selected
    }
}

} // verus!
