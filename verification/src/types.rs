//! Small closed enumerations and the plain color record used by the engine.

use vstd::prelude::*;

verus! {

/// One of the three affiliations; it determines turn ownership and
/// friend/foe status (a different faction is a valid attack target).
#[derive(Clone, Copy, Debug, PartialEq, Eq, Structural)]
pub enum Race {
    Bug,
    Human,
    Bionic,
}

/// The action a released click dispatches to; set by key input and reset to
/// `Select` by the cancel key.
#[derive(Clone, Copy, Debug, PartialEq, Eq, Structural)]
pub enum Mode {
    Select,
    Move,
    Attack,
    Build,
}

/// The top-level session state: a title screen, then the game itself.
#[derive(Clone, Copy, Debug, PartialEq, Eq, Structural)]
pub enum CurrentState {
    Menu,
    Playing,
}

/// The semantic key presses the engine reacts to; the interaction boundary
/// translates raw key codes into these.
#[derive(Clone, Copy, Debug, PartialEq, Eq, Structural)]
pub enum Key {
    M,
    A,
    B,
    Escape,
    Space,
}

/// A display color as plain 8-bit channels.  The render boundary converts
/// this into whatever color type the terminal wants.
#[derive(Clone, Copy, Debug, PartialEq, Eq, Structural)]
pub struct Rgb {
    pub r: u8,
    pub g: u8,
    pub b: u8,
}

impl Rgb {
    /// The color with the given channels.
    pub fn from_u8(r: u8, g: u8, b: u8) -> (c: Rgb)
        ensures
            c == (Rgb { r, g, b }),
    {
        Rgb { r, g, b }
    }
}

} // verus!
