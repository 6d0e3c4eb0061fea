//! One board slot: an index and an optional occupying piece.

use vstd::prelude::*;

use crate::error::Error;
use crate::pieces::Piece;

verus! {

#[derive(Clone, Copy, Debug)]
pub struct Cell {
    pub idx: usize,
    pub piece: Option<Piece>,
}

impl Cell {
    pub fn new(idx: usize, piece: Option<Piece>) -> (c: Cell)
        ensures
            c == (Cell { idx, piece }),
    {
        Cell { idx, piece }
    }

    /// Whether the slot holds a piece.
    pub fn is_occupied(&self) -> (b: bool)
        ensures
            b == (self.piece is Some),
    {
        self.piece.is_some()
    }

    /// Unconditionally overwrites the slot; overwrite policy lives in the
    /// board, not here.
    pub fn place_piece(&mut self, piece: Option<Piece>)
        ensures
            *final(self) == (Cell { idx: old(self).idx, piece }),
    {
        self.piece = piece;
    }

    /// Removes and returns the occupant; fails with `PieceNotFoundAtCell` of
    /// this cell's index if the slot is empty, leaving the cell unchanged.
    pub fn pop_piece(&mut self) -> (r: Result<Piece, Error>)
        ensures
            final(self).idx == old(self).idx,
            old(self).piece is Some ==> r == Ok::<Piece, Error>(old(self).piece->Some_0)
                && final(self).piece is None,
            old(self).piece is None ==> r == Err::<Piece, Error>(
                Error::PieceNotFoundAtCell(old(self).idx),
            ) && *final(self) == *old(self),
    {
        match self.piece {
            Some(p) => {
                self.piece = None;
                Ok(p)
            },
            None => Err(Error::PieceNotFoundAtCell(self.idx)),
        }
    }
}

} // verus!
