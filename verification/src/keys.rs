//! Key codes as the session runtime sees them.

use vstd::prelude::*;

verus! {

/// The code of one key press. Every key that no handler tells apart from the
/// others is `Other`.
#[derive(Clone, Copy, Debug, PartialEq, Eq, Structural)]
pub enum Key {
    Char(char),
    Backspace,
    Delete,
    Enter,
    Esc,
    Up,
    Down,
    Left,
    Right,
    Home,
    End,
    PageUp,
    PageDown,
    Other,
}

impl Key {
    /// Whether the key is the character `lower` or its upper-case form `upper`.
    pub open spec fn is_letter(self, lower: char, upper: char) -> bool {
        self == Key::Char(lower) || self == Key::Char(upper)
    }

    /// Executable form of [`Key::is_letter`].
    pub fn letter(self, lower: char, upper: char) -> (hit: bool)
        ensures
            hit == self.is_letter(lower, upper),
    {
        match self {
            Key::Char(c) => c == lower || c == upper,
            _ => false,
        }
    }
}

} // verus!
