use vstd::prelude::*;

verus! {

/// The colour tag of a board cell or of a piece.
///
/// `Black` marks an empty cell; every settled block carries an `Indexed`
/// entry of the terminal palette.
#[derive(Clone, Copy, Debug, PartialEq, Eq, Structural)]
pub enum Color {
    Black,
    Indexed(u8),
}

/// First palette entry that a new piece may get.
pub const PALETTE_FIRST: u8 = 9;

/// Number of palette entries that a new piece may get.
pub const PALETTE_LEN: u8 = 6;

impl Color {
    /// Whether a cell of this colour counts as occupied.
    pub open spec fn occupied(self) -> bool {
        self != Color::Black
    }

    /// Whether this colour is one of the six that new pieces are given.
    pub open spec fn in_palette(self) -> bool {
        self matches Color::Indexed(n) && PALETTE_FIRST <= n < PALETTE_FIRST + PALETTE_LEN
    }

    /// Tells an occupied cell from an empty one.
    pub fn is_occupied(&self) -> (r: bool)
        ensures
            r == self.occupied(),
    {
        *self != Color::Black
    }
}

} // verus!
