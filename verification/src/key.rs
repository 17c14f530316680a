//! The classes of key that the editor tells apart.

use vstd::prelude::*;

verus! {

/// A key press, reduced to what the command bar reacts to.
#[derive(Clone, Copy, Debug, PartialEq, Eq)]
pub enum Key {
    /// Confirms the line.
    Enter,
    /// Rubs out the last character.
    Backspace,
    /// A character to insert.
    Char(char),
    /// Any other key: arrows, function keys, escape sequences.
    Other,
}

} // verus!
