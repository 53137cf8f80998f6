//! The capabilities the agents consume: a pointer that can be read and moved,
//! and a keyboard on which one key can be pressed.
//!
//! A backend may say in its spec functions what it reports and how a call
//! changes it; one that says nothing admits everything.

use vstd::prelude::*;
use crate::types::Position;

verus! {

/// A keyboard on which single keys can be pressed.
pub trait KeyboardBackend {
    /// Whether `next` is this keyboard after `key` was pressed on it.
    open spec fn follows_press(&self, key: char, next: &Self) -> bool {
        true
    }

    /// Presses and releases `key` once.
    fn press_key(&mut self, key: char)
        ensures
            old(self).follows_press(key, final(self)),
    ;
}

/// A pointer whose location can be read and commanded.
pub trait MouseBackend {
    /// Whether the backend, as it stands, may report `pos` as the pointer's
    /// position.
    open spec fn may_report(&self, pos: Position) -> bool {
        true
    }

    /// Whether `next` is this backend after it was told to move the pointer
    /// to `pos`.
    open spec fn follows_move(&self, pos: Position, next: &Self) -> bool {
        true
    }

    /// Moves the pointer to `pos`. Bringing `pos` to whole pixels is the
    /// backend's business; where the pointer lands is not promised.
    fn move_mouse(&mut self, pos: Position)
        ensures
            old(self).follows_move(pos, final(self)),
    ;

    /// Where the pointer is now.
    fn read_mouse_position(&self) -> (pos: Position)
        ensures
            self.may_report(pos),
    ;
}

} // verus!
