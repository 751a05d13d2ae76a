//! Key presses.

use vstd::prelude::*;

verus! {

/// One key press, as far as the editor tells keys apart.
#[derive(Clone, Copy, Debug, PartialEq, Eq, Structural)]
pub enum Key {
    /// A character typed without a modifier.
    Char(char),
    /// A character typed while the control key was held.
    Ctrl(char),
    /// A character typed while the alt key was held.
    Alt(char),
    /// The escape key.
    Esc,
    /// Any other key: arrows, function keys and the like.
    Other,
}

} // verus!
