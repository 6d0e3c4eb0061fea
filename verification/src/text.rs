//! Character and text helpers shared by the notation decoders: ASCII
//! lowercasing, digit classification, and splitting a character sequence on
//! a separator.

use vstd::prelude::*;

verus! {

/// ASCII lowercasing: 'A'..'Z' map to 'a'..'z', every other character is
/// unchanged.
pub open spec fn ascii_lower(c: char) -> char {
    if 'A' <= c && c <= 'Z' {
        ((c as u32) + 32) as char
    } else {
        c
    }
}

pub open spec fn is_digit_char(c: char) -> bool {
    '0' <= c && c <= '9'
}

pub open spec fn digit_val(c: char) -> int {
    c as int - '0' as int
}

/// The pieces of `s` between occurrences of `sep`, in order: one piece more
/// than there are separators, and a piece may be empty.
pub open spec fn split_chars(s: Seq<char>, sep: char) -> Seq<Seq<char>>
    decreases s.len(),
{
    if s.len() == 0 {
        seq![Seq::<char>::empty()]
    } else if s.last() == sep {
        split_chars(s.drop_last(), sep).push(Seq::<char>::empty())
    } else {
        let parts = split_chars(s.drop_last(), sep);
        parts.update(parts.len() - 1, parts.last().push(s.last()))
    }
}

/// How often `c` occurs in `s`.
pub open spec fn count_char(s: Seq<char>, c: char) -> int
    decreases s.len(),
{
    if s.len() == 0 {
        0
    } else {
        count_char(s.drop_last(), c) + if s.last() == c {
            1int
        } else {
            0int
        }
    }
}

/// Splitting yields one piece more than there are separators.
pub proof fn lemma_split_chars_len(s: Seq<char>, sep: char)
    ensures
        0 <= count_char(s, sep),
        split_chars(s, sep).len() == count_char(s, sep) + 1,
    decreases s.len(),
{
    if s.len() > 0 {
        lemma_split_chars_len(s.drop_last(), sep);
        if s.last() != sep {
            let parts = split_chars(s.drop_last(), sep);
            assert(split_chars(s, sep) == parts.update(parts.len() - 1, parts.last().push(s.last())));
        }
    }
}

/// The characters of `s`, in order, as a vector.
pub(crate) fn str_chars(s: &str) -> (v: Vec<char>)
    ensures
        v@ == s@,
{
    let n: usize = s.unicode_len();
    let mut v: Vec<char> = Vec::new();
    let mut i: usize = 0;
    while i < n
        invariant
            i <= n,
            n == s@.len(),
            v@ == s@.take(i as int),
        decreases n - i,
    {
        let c = s.get_char(i);
        v.push(c);
        i = i + 1;
        assert(v@ =~= s@.take(i as int));
    }
    assert(v@ =~= s@);
    v
}

/// Splits `v` on `sep`, mirroring `split_chars`.
pub(crate) fn split_vec(v: &Vec<char>, sep: char) -> (parts: Vec<Vec<char>>)
    ensures
        parts@.map_values(|p: Vec<char>| p@) == split_chars(v@, sep),
        parts@.len() >= 1,
{
    let mut parts: Vec<Vec<char>> = Vec::new();
    let mut cur: Vec<char> = Vec::new();
    let mut i: usize = 0;
    while i < v.len()
        invariant
            i <= v@.len(),
            parts@.map_values(|p: Vec<char>| p@).push(cur@) == split_chars(
                v@.take(i as int),
                sep,
            ),
        decreases v@.len() - i,
    {
        let ghost prefix = v@.take(i as int);
        let ghost old_parts = parts@.map_values(|p: Vec<char>| p@);
        let ghost old_cur = cur@;
        let c = v[i];
        if c == sep {
            parts.push(cur);
            cur = Vec::new();
        } else {
            cur.push(c);
        }
        i = i + 1;
        proof {
            let next = v@.take(i as int);
            assert(next.drop_last() =~= prefix);
            assert(next.last() == v@[i - 1]);
            if c == sep {
                assert(parts@.map_values(|p: Vec<char>| p@) =~= old_parts.push(old_cur));
                assert(parts@.map_values(|p: Vec<char>| p@).push(cur@) =~= split_chars(
                    next,
                    sep,
                ));
            } else {
                let prev_split = split_chars(prefix, sep);
                assert(prev_split == old_parts.push(old_cur));
                assert(split_chars(next, sep) == prev_split.update(
                    prev_split.len() - 1,
                    prev_split.last().push(c),
                ));
                assert(parts@.map_values(|p: Vec<char>| p@).push(cur@) =~= split_chars(
                    next,
                    sep,
                ));
            }
        }
    }
    assert(v@.take(v@.len() as int) =~= v@);
    parts.push(cur);
    proof {
        assert(parts@.map_values(|p: Vec<char>| p@) =~= split_chars(v@, sep));
    }
    parts
}

/// Whether `c` occurs in `v`.
pub(crate) fn contains_char(v: &Vec<char>, c: char) -> (b: bool)
    ensures
        b == v@.contains(c),
{
    let mut i: usize = 0;
    while i < v.len()
        invariant
            i <= v@.len(),
            forall|k: int| 0 <= k < i ==> v@[k] != c,
        decreases v@.len() - i,
    {
        if v[i] == c {
            assert(v@.contains(c));
            return true;
        }
        i = i + 1;
    }
    assert(!v@.contains(c));
    false
}

/// Relies on `char::to_string` of std: the returned text holds exactly the
/// given character.
#[verifier::external_body]
pub(crate) fn char_to_string(c: char) -> (s: String)
    ensures
        s@ == seq![c],
{
    c.to_string()
}

} // verus!
