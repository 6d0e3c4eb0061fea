//! Piece values: a color and a piece kind, with the one-letter text code
//! used by the position notation (uppercase = white, lowercase = black).

use vstd::prelude::*;

use crate::error::Error;

verus! {

#[derive(Clone, Copy, Debug, PartialEq, Eq, Structural)]
pub enum Color {
    Black,
    White,
}

#[derive(Clone, Copy, Debug, PartialEq, Eq, Structural)]
pub enum PieceType {
    King,
    Queen,
    Bishop,
    Knight,
    Rook,
    Pawn,
}

#[derive(Clone, Copy, Debug, PartialEq, Eq, Structural)]
pub struct Piece {
    pub color: Color,
    pub piece_type: PieceType,
}

/// The other side.
pub open spec fn opposite(c: Color) -> Color {
    match c {
        Color::Black => Color::White,
        Color::White => Color::Black,
    }
}

/// The one-letter code of a piece: King=K, Queen=Q, Bishop=B, Knight=N,
/// Rook=R, Pawn=P; uppercase for white, lowercase for black.
pub open spec fn piece_letter(p: Piece) -> char {
    match p.piece_type {
        PieceType::King => if p.color is White { 'K' } else { 'k' },
        PieceType::Queen => if p.color is White { 'Q' } else { 'q' },
        PieceType::Bishop => if p.color is White { 'B' } else { 'b' },
        PieceType::Knight => if p.color is White { 'N' } else { 'n' },
        PieceType::Rook => if p.color is White { 'R' } else { 'r' },
        PieceType::Pawn => if p.color is White { 'P' } else { 'p' },
    }
}

/// Whether a character is one of the twelve piece codes.
pub open spec fn is_piece_letter(c: char) -> bool {
    ||| c == 'K' || c == 'Q' || c == 'B' || c == 'N' || c == 'R' || c == 'P'
    ||| c == 'k' || c == 'q' || c == 'b' || c == 'n' || c == 'r' || c == 'p'
}

/// The piece a code letter stands for. Only meaningful on piece letters;
/// any other character maps to an arbitrary fixed piece.
pub open spec fn piece_of_letter(c: char) -> Piece {
    let piece_type = if c == 'K' || c == 'k' {
        PieceType::King
    } else if c == 'Q' || c == 'q' {
        PieceType::Queen
    } else if c == 'B' || c == 'b' {
        PieceType::Bishop
    } else if c == 'N' || c == 'n' {
        PieceType::Knight
    } else if c == 'R' || c == 'r' {
        PieceType::Rook
    } else {
        PieceType::Pawn
    };
    let color = if c == 'K' || c == 'Q' || c == 'B' || c == 'N' || c == 'R' || c == 'P' {
        Color::White
    } else {
        Color::Black
    };
    Piece { color, piece_type }
}

/// Law: every piece's one-letter code is a piece letter and decodes back to
/// the same piece, for all twelve (kind, color) combinations.
pub proof fn lemma_piece_code_round_trip(p: Piece)
    ensures
        is_piece_letter(piece_letter(p)),
        piece_of_letter(piece_letter(p)) == p,
{
}

impl Piece {
    pub fn new(piece_type: PieceType, color: Color) -> (p: Piece)
        ensures
            p == (Piece { color, piece_type }),
    {
        Piece { color, piece_type }
    }

    pub fn color(&self) -> (c: Color)
        ensures
            c == self.color,
    {
        self.color
    }

    pub fn piece_type(&self) -> (t: PieceType)
        ensures
            t == self.piece_type,
    {
        self.piece_type
    }

    /// The piece's one-letter code as text.
    pub fn to_string(&self) -> (s: String)
        ensures
            s@ == seq![piece_letter(*self)],
    {
        proof {
            reveal_strlit("K");
            reveal_strlit("Q");
            reveal_strlit("B");
            reveal_strlit("N");
            reveal_strlit("R");
            reveal_strlit("P");
            reveal_strlit("k");
            reveal_strlit("q");
            reveal_strlit("b");
            reveal_strlit("n");
            reveal_strlit("r");
            reveal_strlit("p");
        }
        let white = self.color == Color::White;
        let lit: &str = match self.piece_type {
            PieceType::King => if white { "K" } else { "k" },
            PieceType::Queen => if white { "Q" } else { "q" },
            PieceType::Bishop => if white { "B" } else { "b" },
            PieceType::Knight => if white { "N" } else { "n" },
            PieceType::Rook => if white { "R" } else { "r" },
            PieceType::Pawn => if white { "P" } else { "p" },
        };
        assert(lit@ =~= seq![piece_letter(*self)]);
        lit.to_owned()
    }

    /// Decodes a one-letter piece code; any other text fails with
    /// `InvalidPieceStr` carrying the offending text.
    pub fn from_str(s: &str) -> (r: Result<Piece, Error>)
        ensures
            (s@.len() == 1 && is_piece_letter(s@[0])) ==> r == Ok::<Piece, Error>(
                piece_of_letter(s@[0]),
            ),
            !(s@.len() == 1 && is_piece_letter(s@[0])) ==> (r matches Err(
                Error::InvalidPieceStr(t),
            ) && t@ == s@),
    {
        if s.unicode_len() != 1 {
            return Err(Error::InvalidPieceStr(s.to_owned()));
        }
        let c = s.get_char(0);
        match decode_piece_char(c) {
            Some(p) => Ok(p),
            None => Err(Error::InvalidPieceStr(s.to_owned())),
        }
    }
}

/// Decodes one character of the board notation: `Some` exactly on the twelve
/// piece letters.
pub(crate) fn decode_piece_char(c: char) -> (r: Option<Piece>)
    ensures
        r is Some <==> is_piece_letter(c),
        is_piece_letter(c) ==> r == Some(piece_of_letter(c)),
{
    let (piece_type, found) = if c == 'K' || c == 'k' {
        (PieceType::King, true)
    } else if c == 'Q' || c == 'q' {
        (PieceType::Queen, true)
    } else if c == 'B' || c == 'b' {
        (PieceType::Bishop, true)
    } else if c == 'N' || c == 'n' {
        (PieceType::Knight, true)
    } else if c == 'R' || c == 'r' {
        (PieceType::Rook, true)
    } else if c == 'P' || c == 'p' {
        (PieceType::Pawn, true)
    } else {
        (PieceType::Pawn, false)
    };
    if !found {
        return None;
    }
    let color = if c == 'K' || c == 'Q' || c == 'B' || c == 'N' || c == 'R' || c == 'P' {
        Color::White
    } else {
        Color::Black
    };
    Some(Piece { color, piece_type })
}

} // verus!
