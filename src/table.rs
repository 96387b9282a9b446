//! The fixed character table: which characters can be signalled, and how.
use vstd::prelude::*;

verus! {

/// One element of a character's pattern.
#[derive(Clone, Copy, Debug, PartialEq, Eq, Structural)]
pub enum Symbol {
    /// A short pulse.
    Dot,
    /// A long pulse.
    Dash,
    /// An idle stretch with no pulse; the pattern of the space character.
    Gap,
}

/// `c` with an ASCII lowercase letter mapped to its uppercase letter, as
/// `char::to_ascii_uppercase` does; every other character is kept.
pub open spec fn ascii_upper(c: char) -> char {
    if 'a' <= c && c <= 'z' {
        ((c as u32) - 32) as char
    } else {
        c
    }
}

/// The characters that have a pattern: the letters `A`-`Z`, the digits and space.
pub open spec fn is_supported(c: char) -> bool {
    ('A' <= c && c <= 'Z') || ('0' <= c && c <= '9') || c == ' '
}

/// The pattern of an uppercase letter, a digit or space; `None` for any other character.
pub open spec fn pattern(c: char) -> Option<Seq<Symbol>> {
    match c {
        'A' => Some(seq![Symbol::Dot, Symbol::Dash]),
        'B' => Some(seq![Symbol::Dash, Symbol::Dot, Symbol::Dot, Symbol::Dot]),
        'C' => Some(seq![Symbol::Dash, Symbol::Dot, Symbol::Dash, Symbol::Dot]),
        'D' => Some(seq![Symbol::Dash, Symbol::Dot, Symbol::Dot]),
        'E' => Some(seq![Symbol::Dot]),
        'F' => Some(seq![Symbol::Dot, Symbol::Dot, Symbol::Dash, Symbol::Dot]),
        'G' => Some(seq![Symbol::Dash, Symbol::Dash, Symbol::Dot]),
        'H' => Some(seq![Symbol::Dot, Symbol::Dot, Symbol::Dot, Symbol::Dot]),
        'I' => Some(seq![Symbol::Dot, Symbol::Dot]),
        'J' => Some(seq![Symbol::Dot, Symbol::Dash, Symbol::Dash, Symbol::Dash]),
        'K' => Some(seq![Symbol::Dash, Symbol::Dot, Symbol::Dash]),
        'L' => Some(seq![Symbol::Dot, Symbol::Dash, Symbol::Dot, Symbol::Dot]),
        'M' => Some(seq![Symbol::Dash, Symbol::Dash]),
        'N' => Some(seq![Symbol::Dash, Symbol::Dot]),
        'O' => Some(seq![Symbol::Dash, Symbol::Dash, Symbol::Dash]),
        'P' => Some(seq![Symbol::Dot, Symbol::Dash, Symbol::Dash, Symbol::Dot]),
        'Q' => Some(seq![Symbol::Dash, Symbol::Dash, Symbol::Dot, Symbol::Dash]),
        'R' => Some(seq![Symbol::Dot, Symbol::Dash, Symbol::Dot]),
        'S' => Some(seq![Symbol::Dot, Symbol::Dot, Symbol::Dot]),
        'T' => Some(seq![Symbol::Dash]),
        'U' => Some(seq![Symbol::Dot, Symbol::Dot, Symbol::Dash]),
        'V' => Some(seq![Symbol::Dot, Symbol::Dot, Symbol::Dot, Symbol::Dash]),
        'W' => Some(seq![Symbol::Dot, Symbol::Dash, Symbol::Dash]),
        'X' => Some(seq![Symbol::Dash, Symbol::Dot, Symbol::Dot, Symbol::Dash]),
        'Y' => Some(seq![Symbol::Dash, Symbol::Dot, Symbol::Dash, Symbol::Dash]),
        'Z' => Some(seq![Symbol::Dash, Symbol::Dash, Symbol::Dot, Symbol::Dot]),
        '1' => Some(seq![Symbol::Dot, Symbol::Dash, Symbol::Dash, Symbol::Dash, Symbol::Dash]),
        '2' => Some(seq![Symbol::Dot, Symbol::Dot, Symbol::Dash, Symbol::Dash, Symbol::Dash]),
        '3' => Some(seq![Symbol::Dot, Symbol::Dot, Symbol::Dot, Symbol::Dash, Symbol::Dash]),
        '4' => Some(seq![Symbol::Dot, Symbol::Dot, Symbol::Dot, Symbol::Dot, Symbol::Dash]),
        '5' => Some(seq![Symbol::Dot, Symbol::Dot, Symbol::Dot, Symbol::Dot, Symbol::Dot]),
        '6' => Some(seq![Symbol::Dash, Symbol::Dot, Symbol::Dot, Symbol::Dot, Symbol::Dot]),
        '7' => Some(seq![Symbol::Dash, Symbol::Dash, Symbol::Dot, Symbol::Dot, Symbol::Dot]),
        '8' => Some(seq![Symbol::Dash, Symbol::Dash, Symbol::Dash, Symbol::Dot, Symbol::Dot]),
        '9' => Some(seq![Symbol::Dash, Symbol::Dash, Symbol::Dash, Symbol::Dash, Symbol::Dot]),
        '0' => Some(seq![Symbol::Dash, Symbol::Dash, Symbol::Dash, Symbol::Dash, Symbol::Dash]),
        ' ' => Some(seq![Symbol::Gap]),
        _ => None,
    }
}

/// Maps an ASCII lowercase letter to uppercase and keeps every other character.
pub fn to_ascii_upper(c: char) -> (r: char)
    ensures
        r == ascii_upper(c),
{
    if 'a' <= c && c <= 'z' {
        ((c as u8) - 32) as char
    } else {
        c
    }
}

/// Looks `c` up in the table, as it stands: lowercase letters have no entry.
pub fn pattern_of(c: char) -> (r: Option<Vec<Symbol>>)
    ensures
        match r {
            Some(p) => pattern(c) == Some(p@),
            None => pattern(c) is None,
        },
{
    match c {
        'A' => Some(vec![Symbol::Dot, Symbol::Dash]),
        'B' => Some(vec![Symbol::Dash, Symbol::Dot, Symbol::Dot, Symbol::Dot]),
        'C' => Some(vec![Symbol::Dash, Symbol::Dot, Symbol::Dash, Symbol::Dot]),
        'D' => Some(vec![Symbol::Dash, Symbol::Dot, Symbol::Dot]),
        'E' => Some(vec![Symbol::Dot]),
        'F' => Some(vec![Symbol::Dot, Symbol::Dot, Symbol::Dash, Symbol::Dot]),
        'G' => Some(vec![Symbol::Dash, Symbol::Dash, Symbol::Dot]),
        'H' => Some(vec![Symbol::Dot, Symbol::Dot, Symbol::Dot, Symbol::Dot]),
        'I' => Some(vec![Symbol::Dot, Symbol::Dot]),
        'J' => Some(vec![Symbol::Dot, Symbol::Dash, Symbol::Dash, Symbol::Dash]),
        'K' => Some(vec![Symbol::Dash, Symbol::Dot, Symbol::Dash]),
        'L' => Some(vec![Symbol::Dot, Symbol::Dash, Symbol::Dot, Symbol::Dot]),
        'M' => Some(vec![Symbol::Dash, Symbol::Dash]),
        'N' => Some(vec![Symbol::Dash, Symbol::Dot]),
        'O' => Some(vec![Symbol::Dash, Symbol::Dash, Symbol::Dash]),
        'P' => Some(vec![Symbol::Dot, Symbol::Dash, Symbol::Dash, Symbol::Dot]),
        'Q' => Some(vec![Symbol::Dash, Symbol::Dash, Symbol::Dot, Symbol::Dash]),
        'R' => Some(vec![Symbol::Dot, Symbol::Dash, Symbol::Dot]),
        'S' => Some(vec![Symbol::Dot, Symbol::Dot, Symbol::Dot]),
        'T' => Some(vec![Symbol::Dash]),
        'U' => Some(vec![Symbol::Dot, Symbol::Dot, Symbol::Dash]),
        'V' => Some(vec![Symbol::Dot, Symbol::Dot, Symbol::Dot, Symbol::Dash]),
        'W' => Some(vec![Symbol::Dot, Symbol::Dash, Symbol::Dash]),
        'X' => Some(vec![Symbol::Dash, Symbol::Dot, Symbol::Dot, Symbol::Dash]),
        'Y' => Some(vec![Symbol::Dash, Symbol::Dot, Symbol::Dash, Symbol::Dash]),
        'Z' => Some(vec![Symbol::Dash, Symbol::Dash, Symbol::Dot, Symbol::Dot]),
        '1' => Some(vec![Symbol::Dot, Symbol::Dash, Symbol::Dash, Symbol::Dash, Symbol::Dash]),
        '2' => Some(vec![Symbol::Dot, Symbol::Dot, Symbol::Dash, Symbol::Dash, Symbol::Dash]),
        '3' => Some(vec![Symbol::Dot, Symbol::Dot, Symbol::Dot, Symbol::Dash, Symbol::Dash]),
        '4' => Some(vec![Symbol::Dot, Symbol::Dot, Symbol::Dot, Symbol::Dot, Symbol::Dash]),
        '5' => Some(vec![Symbol::Dot, Symbol::Dot, Symbol::Dot, Symbol::Dot, Symbol::Dot]),
        '6' => Some(vec![Symbol::Dash, Symbol::Dot, Symbol::Dot, Symbol::Dot, Symbol::Dot]),
        '7' => Some(vec![Symbol::Dash, Symbol::Dash, Symbol::Dot, Symbol::Dot, Symbol::Dot]),
        '8' => Some(vec![Symbol::Dash, Symbol::Dash, Symbol::Dash, Symbol::Dot, Symbol::Dot]),
        '9' => Some(vec![Symbol::Dash, Symbol::Dash, Symbol::Dash, Symbol::Dash, Symbol::Dot]),
        '0' => Some(vec![Symbol::Dash, Symbol::Dash, Symbol::Dash, Symbol::Dash, Symbol::Dash]),
        ' ' => Some(vec![Symbol::Gap]),
        _ => None,
    }
}

/// The table holds exactly the uppercase letters, the digits and space.
pub proof fn lemma_table_domain(c: char)
    ensures
        pattern(c) is Some <==> is_supported(c),
{
}

/// Mapping to uppercase twice is mapping once.
pub proof fn lemma_ascii_upper_idempotent(c: char)
    ensures
        ascii_upper(ascii_upper(c)) == ascii_upper(c),
{
}

} // verus!
