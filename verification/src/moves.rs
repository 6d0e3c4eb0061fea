//! Coordinate moves: a pair of origin/destination board indices, parsed from
//! four-character text such as `"e2e4"`.

use vstd::prelude::*;

use crate::error::Error;
use crate::text::ascii_lower;

verus! {

#[derive(Clone, Copy, Debug, PartialEq, Eq, Structural)]
pub struct Move {
    pub from: usize,
    pub to: usize,
}

/// A file letter, `a` to `h` in either case.
pub open spec fn is_file_char(c: char) -> bool {
    ('a' <= c && c <= 'h') || ('A' <= c && c <= 'H')
}

/// A rank digit, `1` to `8`.
pub open spec fn is_rank_char(c: char) -> bool {
    '1' <= c && c <= '8'
}

/// The column a file letter names: its case-folded offset from 'a'.
pub open spec fn file_index(c: char) -> int {
    ascii_lower(c) as int - 'a' as int
}

/// The row a rank digit names: rank 8 is row 0 at the top, rank 1 is row 7.
pub open spec fn rank_index(c: char) -> int {
    8 - (c as int - '0' as int)
}

/// The board index of a square: column plus row times eight.
pub open spec fn square_index(file: char, rank: char) -> int {
    file_index(file) + 8 * rank_index(rank)
}

/// Exactly four characters, file-rank-file-rank.
pub open spec fn is_move_text(s: Seq<char>) -> bool {
    s.len() == 4 && is_file_char(s[0]) && is_rank_char(s[1]) && is_file_char(s[2])
        && is_rank_char(s[3])
}

/// The case-folded offset of a character from a base character.
pub(crate) fn char_to_int(ch: char, base: char) -> (r: u8)
    requires
        ch as int <= 127,
        base as int <= ascii_lower(ch) as int,
    ensures
        r as int == ascii_lower(ch) as int - base as int,
{
    let c: u32 = ch as u32;
    let l: u32 = if 65 <= c && c <= 90 {
        c + 32
    } else {
        c
    };
    let b: u32 = base as u32;
    (l - b) as u8
}

/// The column an ASCII letter names, case-insensitively: 'a' and 'A' map to
/// 0, 'z' and 'Z' to 25.
pub fn file_to_int(ch: char) -> (r: u8)
    requires
        ('a' <= ch && ch <= 'z') || ('A' <= ch && ch <= 'Z'),
    ensures
        r as int == file_index(ch),
{
    char_to_int(ch, 'a')
}

/// The row a rank digit names: '8' maps to row 0, '1' to row 7.
pub fn rank_to_int(ch: char) -> (r: u8)
    requires
        '0' <= ch && ch <= '8',
    ensures
        r as int == rank_index(ch),
{
    8 - char_to_int(ch, '0')
}

fn is_file(c: char) -> (b: bool)
    ensures
        b == is_file_char(c),
{
    let u: u32 = c as u32;
    (97 <= u && u <= 104) || (65 <= u && u <= 72)
}

fn is_rank(c: char) -> (b: bool)
    ensures
        b == is_rank_char(c),
{
    let u: u32 = c as u32;
    49 <= u && u <= 56
}

impl Move {
    pub fn new(from: usize, to: usize) -> (m: Move)
        ensures
            m == (Move { from, to }),
    {
        Move { from, to }
    }

    /// Parses four-character coordinate text into a move. Anything that is
    /// not file-rank-file-rank with files `a`..`h` (case-insensitive) and
    /// ranks `1`..`8` fails with `InvalidMoveStr` carrying the text.
    pub fn from_str(s: &str) -> (r: Result<Move, Error>)
        ensures
            is_move_text(s@) ==> (r matches Ok(m) && m.from == square_index(s@[0], s@[1])
                && m.to == square_index(s@[2], s@[3])),
            r matches Ok(m) ==> is_move_text(s@) && m.from < 64 && m.to < 64,
            !is_move_text(s@) ==> (r matches Err(Error::InvalidMoveStr(t)) && t@ == s@),
    {
        if s.unicode_len() != 4 {
            return Err(Error::InvalidMoveStr(s.to_owned()));
        }
        let c0 = s.get_char(0);
        let c1 = s.get_char(1);
        let c2 = s.get_char(2);
        let c3 = s.get_char(3);
        if !(is_file(c0) && is_rank(c1) && is_file(c2) && is_rank(c3)) {
            return Err(Error::InvalidMoveStr(s.to_owned()));
        }
        let from: u8 = file_to_int(c0) + 8 * rank_to_int(c1);
        let to: u8 = file_to_int(c2) + 8 * rank_to_int(c3);
        Ok(Move::new(from as usize, to as usize))
    }
}

} // verus!
