//! The keyboard keys that the game's controls respond to.
use vstd::prelude::*;

verus! {

/// A keyboard key, as far as the controls tell keys apart.
#[derive(Debug, Eq, PartialEq, Clone, Copy, Structural)]
pub enum Key {
    Up,
    Down,
    Left,
    Right,
    A,
    D,
    I,
    J,
    K,
    L,
    S,
    U,
    W,
    Space,
    /// Any key that no control uses.
    Other,
}

} // verus!
