//! The state of the screens, and what their keys do.

use vstd::prelude::*;

pub mod browser;
pub mod generator;
pub mod models;

verus! {

/// A key of the keyboard, as far as the screens tell keys apart.
#[derive(Debug, Clone, Copy, PartialEq, Eq, Structural)]
pub enum Key {
    Char(char),
    Tab,
    BackTab,
    Enter,
    Esc,
    Up,
    Down,
    Left,
    Right,
    Backspace,
    Delete,
    /// Any other key.
    Other,
}

/// The modifier bit of the shift key.
pub const SHIFT: u8 = 1;

/// The modifier bit of the control key.
pub const CONTROL: u8 = 2;

/// A key that was pressed, with the modifiers held down as a set of bits.
#[derive(Debug, Clone, Copy, PartialEq, Eq, Structural)]
pub struct KeyPress {
    pub key: Key,
    pub modifiers: u8,
}

/// The position before `selected` in a list of `count` entries, going round
/// from the first to the last; the first position where nothing was
/// selected.
pub open spec fn position_before(selected: Option<usize>, count: nat) -> nat {
    match selected {
        Some(i) => if i == 0 {
            if count == 0 {
                0
            } else {
                (count - 1) as nat
            }
        } else {
            (i - 1) as nat
        },
        None => 0,
    }
}

/// The position after `selected` in a list of `count` entries, going round
/// from the last to the first; the first position where nothing was
/// selected.
pub open spec fn position_after(selected: Option<usize>, count: nat) -> nat {
    match selected {
        Some(i) => if count == 0 || i >= count - 1 {
            0
        } else {
            (i + 1) as nat
        },
        None => 0,
    }
}

/// The position before `selected`, going round.
pub fn step_back(selected: Option<usize>, count: usize) -> (r: usize)
    ensures
        r == position_before(selected, count as nat),
{
    match selected {
        Some(i) => if i == 0 {
            if count == 0 {
                0
            } else {
                count - 1
            }
        } else {
            i - 1
        },
        None => 0,
    }
}

/// The position after `selected`, going round.
pub fn step_on(selected: Option<usize>, count: usize) -> (r: usize)
    ensures
        r == position_after(selected, count as nat),
{
    match selected {
        Some(i) => if count == 0 || i >= count - 1 {
            0
        } else {
            i + 1
        },
        None => 0,
    }
}

/// Within a list that is not empty, stepping on or back from a position of
/// the list leads to a position of the list, and stepping on and then back,
/// or back and then on, leads to where one was.
pub proof fn law_steps_stay_and_return(i: usize, count: nat)
    requires
        i < count <= usize::MAX,
    ensures
        position_after(Some(i), count) < count,
        position_before(Some(i), count) < count,
        position_before(Some(position_after(Some(i), count) as usize), count) == i,
        position_after(Some(position_before(Some(i), count) as usize), count) == i,
{
}

} // verus!
