use vstd::prelude::*;
use vstd::string::*;
use crate::board::{numbered, Board, Position};

verus! {

/// A source of moves: given the board, it picks a position.
pub trait MoveInput {
    fn get_move(&self, board: &Board) -> Position;
}

/// A human player, who types moves.
#[derive(Debug)]
pub struct User {
    pub name: String,
}

/// What one typed line amounts to.
#[derive(Debug, Clone, Copy, PartialEq, Eq, Structural)]
pub enum MoveReply {
    /// A number from 1 to 9, and the position it names.
    Chosen(Position),
    /// The line is not an integer.
    NotANumber,
    /// An integer outside 1 to 9.
    OutOfRange,
}

/// `c` is an ASCII decimal digit.
pub open spec fn is_digit(c: char) -> bool {
    '0' <= c <= '9'
}

/// The value of a string of decimal digits.
pub open spec fn digits_value(s: Seq<char>) -> nat
    decreases s.len(),
{
    if s.len() == 0 {
        0
    } else {
        10 * digits_value(s.drop_last()) + (s.last() as nat - '0' as nat) as nat
    }
}

/// `d` is one or more decimal digits.
pub open spec fn digits_only(d: Seq<char>) -> bool {
    d.len() > 0 && forall|i: int| 0 <= i < d.len() ==> is_digit(#[trigger] d[i])
}

/// `t` writes an integer: an optional `+` or `-`, then one or more digits.
pub open spec fn is_integer_text(t: Seq<char>) -> bool {
    if t.len() > 0 && (t[0] == '+' || t[0] == '-') {
        digits_only(t.drop_first())
    } else {
        digits_only(t)
    }
}

/// The `u8` that `s` writes in decimal: an optional `+`, then one or more
/// digits, with a value of at most 255.
pub open spec fn decimal_u8(s: Seq<char>) -> Option<u8> {
    let d = if s.len() > 0 && s[0] == '+' {
        s.drop_first()
    } else {
        s
    };
    if digits_only(d) && digits_value(d) <= 255 {
        Some(digits_value(d) as u8)
    } else {
        None
    }
}

/// `r` is the answer to the line `t`, taken as it stands: the position of a
/// number from 1 to 9, out of range for any other integer, and not a number
/// for a line that is no integer.
pub open spec fn reply_to(r: MoveReply, t: Seq<char>) -> bool {
    if !is_integer_text(t) {
        r is NotANumber
    } else {
        match decimal_u8(t) {
            Some(n) => match numbered(n as int) {
                Some(c) => r matches MoveReply::Chosen(p) && p@ == c,
                None => r is OutOfRange,
            },
            None => r is OutOfRange,
        }
    }
}

/// Whether `t` writes an integer.
fn is_integer(t: &str) -> (r: bool)
    ensures
        r == is_integer_text(t@),
{
    let n = t.unicode_len();
    if n == 0 {
        return false;
    }
    let first = t.get_char(0);
    let start: usize = if first == '+' || first == '-' {
        1
    } else {
        0
    };
    if start == n {
        assert(t@.drop_first().len() == 0);
        return false;
    }
    let ghost d = if start == 1 {
        t@.drop_first()
    } else {
        t@
    };
    assert(d == t@.subrange(start as int, n as int));
    assert(is_integer_text(t@) == digits_only(d));
    let mut i: usize = start;
    while i < n
        invariant
            start <= i <= n,
            n == t@.len(),
            d == t@.subrange(start as int, n as int),
            is_integer_text(t@) == digits_only(d),
            forall|j: int| start <= j < i ==> is_digit(#[trigger] t@[j]),
        decreases n - i,
    {
        let c = t.get_char(i);
        if !('0' <= c && c <= '9') {
            assert(d[i - start] == c);
            assert(!digits_only(d));
            return false;
        }
        i += 1;
    }
    assert forall|j: int| 0 <= j < d.len() implies is_digit(#[trigger] d[j]) by {
        assert(d[j] == t@[j + start]);
    }
    true
}

/// What `str::trim` leaves of `s`.
pub uninterp spec fn trim_of(s: Seq<char>) -> Seq<char>;

/// Relies on `str::trim`: the result depends on the characters alone.
#[verifier::external_body]
fn trimmed(s: &str) -> (r: &str)
    ensures
        r@ == trim_of(s@),
{
    s.trim()
}

/// Relies on `u8`'s `FromStr`: an optional `+` and then decimal digits only,
/// with an error on anything else and on a value over 255.
#[verifier::external_body]
fn parse_u8(s: &str) -> (r: Option<u8>)
    ensures
        r == decimal_u8(s@),
{
    s.parse::<u8>().ok()
}

/// The answer to a line with its surrounding white space already removed.
pub fn reply_for(t: &str) -> (r: MoveReply)
    ensures
        reply_to(r, t@),
{
    match parse_u8(t) {
        None => if is_integer(t) {
            MoveReply::OutOfRange
        } else {
            MoveReply::NotANumber
        },
        Some(n) => match Position::from_num(n) {
            Some(p) => MoveReply::Chosen(p),
            None => MoveReply::OutOfRange,
        },
    }
}

/// The answer to a typed line: its number, less surrounding white space,
/// read as a cell number.
pub fn read_move(line: &str) -> (r: MoveReply)
    ensures
        reply_to(r, trim_of(line@)),
{
    reply_for(trimmed(line))
}

} // verus!
