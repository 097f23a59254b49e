//! Colors of a black/white e-paper panel.
use vstd::prelude::*;

verus! {

/// A pixel color of a black/white panel.
#[derive(Clone, Copy, Debug, PartialEq, Eq, Structural)]
pub enum Color {
    Black,
    White,
}

impl Color {
    /// The byte that paints eight pixels of this color: all bits clear for
    /// black, all bits set for white.
    pub open spec fn byte_value(self) -> u8 {
        match self {
            Color::Black => 0x00,
            Color::White => 0xff,
        }
    }

    /// Returns the byte that paints eight pixels of this color.
    pub fn get_byte_value(self) -> (b: u8)
        ensures
            b == self.byte_value(),
    {
        match self {
            Color::Black => 0x00,
            Color::White => 0xff,
        }
    }
}

} // verus!
