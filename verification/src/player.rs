//! A player: a color and the two castling-right flags (kingside, queenside).
//! The flags are set once, from the castling field of the loaded notation,
//! and never change afterwards: revoking rights on king or rook moves is out
//! of scope.

use vstd::prelude::*;

use crate::pieces::Color;

verus! {

#[derive(Clone, Copy, Debug, PartialEq)]
pub struct Player {
    pub color: Color,
    pub castle: (bool, bool),
}

impl Player {
    pub fn new(color: Color) -> (p: Player)
        ensures
            p == (Player { color, castle: (true, true) }),
    {
        Player { color, castle: (true, true) }
    }

    pub fn white() -> (p: Player)
        ensures
            p == (Player { color: Color::White, castle: (true, true) }),
    {
        Self::new(Color::White)
    }

    pub fn black() -> (p: Player)
        ensures
            p == (Player { color: Color::Black, castle: (true, true) }),
    {
        Self::new(Color::Black)
    }

    /// Overwrites both castling flags (kingside, queenside).
    pub fn set_castle_prev(&mut self, previl: (bool, bool))
        ensures
            *final(self) == (Player { color: old(self).color, castle: previl }),
    {
        self.castle = previl;
    }
}

} // verus!
