//! The spatial / visual record of an entity.

use vstd::prelude::*;

use crate::types::Rgb;

verus! {

/// Position, glyph, color and selection flag of one entity.  Paired one to
/// one with a [`crate::unit::Unit`] to form a world entity.  The position is
/// mutable only through [`GameCell::move_pos`]; glyph and color are fixed at
/// creation; at most one cell is meant to be selected at a time, which the
/// selection dispatch enforces.
#[derive(Clone, Copy, Debug, PartialEq, Eq, Structural)]
pub struct GameCell {
    pub x: i32,
    pub y: i32,
    pub symbol: char,
    pub color: Rgb,
    pub selected: bool,
}

impl GameCell {
    /// A fresh, unselected cell at `(x, y)`.
    pub fn new(x: i32, y: i32, symbol: char, color: Rgb) -> (c: GameCell)
        ensures
            c == (GameCell { x, y, symbol, color, selected: false }),
    {
        GameCell { x, y, symbol, color, selected: false }
    }

    /// Moves the cell to `(x, y)`; everything else is unchanged.
    pub fn move_pos(&mut self, x: i32, y: i32)
        ensures
            *final(self) == (GameCell { x, y, ..*old(self) }),
    {
        self.x = x;
        self.y = y;
    }

    /// Toggles the selection flag.
    pub fn select(&mut self)
        ensures
            *final(self) == (GameCell { selected: !old(self).selected, ..*old(self) }),
    {
        self.selected = !self.selected;
    }

    /// Clears the selection flag.
    pub fn deselect(&mut self)
        ensures
            *final(self) == (GameCell { selected: false, ..*old(self) }),
    {
        self.selected = false
    }

    pub fn x(&self) -> (r: i32)
        ensures
            r == self.x,
    {
        self.x
    }

    pub fn y(&self) -> (r: i32)
        ensures
            r == self.y,
    {
        self.y
    }

    pub fn symbol(&self) -> (r: char)
        ensures
            r == self.symbol,
    {
        self.symbol
    }

    pub fn color(&self) -> (r: Rgb)
        ensures
            r == self.color,
    {
        self.color
    }

    /// White while selected, else the render surface's clear color (black).
    pub fn bg_color(&self) -> (r: Rgb)
        ensures
            r == (if self.selected {
                Rgb { r: 255, g: 255, b: 255 }
            } else {
                Rgb { r: 0, g: 0, b: 0 }
            }),
    {
        if self.selected {
            Rgb { r: 255, g: 255, b: 255 }
        } else {
            Rgb { r: 0, g: 0, b: 0 }
        }
    }

    pub fn selected(&self) -> (r: bool)
        ensures
            r == self.selected,
    {
        self.selected
    }
}

} // verus!
