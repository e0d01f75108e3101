//! Base-10 and base-16 digit characters: what they denote, how a byte is
//! rendered, and how a rendered pair is parsed back.

use vstd::prelude::*;
use vstd::string::StringExecFns;
use vstd::string::StrSliceExecFns;

verus! {

/// True of the characters that a base-16 byte parse accepts: decimal digits
/// and the letters `a` through `f` in either case.
pub open spec fn is_hex_digit(c: char) -> bool {
    ('0' as u32 <= c as u32 && c as u32 <= '9' as u32)
        || ('a' as u32 <= c as u32 && c as u32 <= 'f' as u32)
        || ('A' as u32 <= c as u32 && c as u32 <= 'F' as u32)
}

/// The numeric value a base-16 digit character denotes.
pub open spec fn hex_digit_value(c: char) -> int {
    if '0' as u32 <= c as u32 && c as u32 <= '9' as u32 {
        c as u32 - '0' as u32
    } else if 'a' as u32 <= c as u32 && c as u32 <= 'f' as u32 {
        c as u32 - 'a' as u32 + 10
    } else {
        c as u32 - 'A' as u32 + 10
    }
}

/// The character that renders a digit value below sixteen, lowercase.
pub open spec fn digit_char(v: int) -> char {
    if v == 0 { '0' }
    else if v == 1 { '1' }
    else if v == 2 { '2' }
    else if v == 3 { '3' }
    else if v == 4 { '4' }
    else if v == 5 { '5' }
    else if v == 6 { '6' }
    else if v == 7 { '7' }
    else if v == 8 { '8' }
    else if v == 9 { '9' }
    else if v == 10 { 'a' }
    else if v == 11 { 'b' }
    else if v == 12 { 'c' }
    else if v == 13 { 'd' }
    else if v == 14 { 'e' }
    else { 'f' }
}

/// The value of a two-character base-16 byte, high digit first.
pub open spec fn hex_pair_value(s: Seq<char>) -> int
    recommends
        s.len() == 2,
{
    16 * hex_digit_value(s[0]) + hex_digit_value(s[1])
}

/// The two lowercase characters that render a byte in base 16.
pub open spec fn hex_pair_of(b: int) -> Seq<char> {
    seq![digit_char(b / 16), digit_char(b % 16)]
}

/// The base-10 rendering of a non-negative number, without leading zeros.
pub open spec fn dec_rep(n: int) -> Seq<char>
    decreases n,
{
    if n < 10 {
        seq![digit_char(n)]
    } else {
        dec_rep(n / 10) + seq![digit_char(n % 10)]
    }
}

/// A digit value below sixteen renders as a base-16 digit character, the
/// rendering denotes the value it came from, and it is never the hash mark.
pub proof fn lemma_digit_char_hex(v: int)
    requires
        0 <= v < 16,
    ensures
        is_hex_digit(digit_char(v)),
        hex_digit_value(digit_char(v)) == v,
        digit_char(v) != '#',
{
}

/// Round-trip law: parsing the two-digit base-16 rendering of a byte gives
/// the byte back.
pub proof fn lemma_hex_pair_round_trip(b: int)
    requires
        0 <= b < 256,
    ensures
        hex_pair_value(hex_pair_of(b)) == b,
        hex_pair_of(b).len() == 2,
        is_hex_digit(hex_pair_of(b)[0]),
        is_hex_digit(hex_pair_of(b)[1]),
{
    lemma_digit_char_hex(b / 16);
    lemma_digit_char_hex(b % 16);
}

/// Whether a character is a base-16 digit.
pub fn hex_digit_check(c: char) -> (r: bool)
    ensures
        r == is_hex_digit(c),
{
    let u = c as u32;
    (48 <= u && u <= 57) || (97 <= u && u <= 102) || (65 <= u && u <= 70)
}

/// The numeric value of a base-16 digit character.
pub fn hex_digit_to_value(c: char) -> (v: u8)
    requires
        is_hex_digit(c),
    ensures
        v as int == hex_digit_value(c),
        v < 16,
{
    let u = c as u32;
    if 48 <= u && u <= 57 {
        (u - 48) as u8
    } else if 97 <= u && u <= 102 {
        (u - 97 + 10) as u8
    } else {
        (u - 65 + 10) as u8
    }
}

/// The one-character string that renders a digit value below sixteen.
pub fn digit_str(v: u8) -> (s: &'static str)
    requires
        v < 16,
    ensures
        s@ == seq![digit_char(v as int)],
{
    let s: &'static str = match v {
        0 => "0",
        1 => "1",
        2 => "2",
        3 => "3",
        4 => "4",
        5 => "5",
        6 => "6",
        7 => "7",
        8 => "8",
        9 => "9",
        10 => "a",
        11 => "b",
        12 => "c",
        13 => "d",
        14 => "e",
        _ => "f",
    };
    proof {
        reveal_strlit("0");
        reveal_strlit("1");
        reveal_strlit("2");
        reveal_strlit("3");
        reveal_strlit("4");
        reveal_strlit("5");
        reveal_strlit("6");
        reveal_strlit("7");
        reveal_strlit("8");
        reveal_strlit("9");
        reveal_strlit("a");
        reveal_strlit("b");
        reveal_strlit("c");
        reveal_strlit("d");
        reveal_strlit("e");
        reveal_strlit("f");
        assert(s@ =~= seq![digit_char(v as int)]);
    }
    s
}

/// Renders a byte in base 10 with no leading zeros.
pub fn decimal_str(n: u8) -> (s: String)
    ensures
        s@ == dec_rep(n as int),
{
    let mut s = String::new();
    if n >= 100 {
        s.append(digit_str(n / 100));
    }
    if n >= 10 {
        s.append(digit_str((n / 10) % 10));
    }
    s.append(digit_str(n % 10));
    proof {
        reveal_with_fuel(dec_rep, 4);
        if n >= 100 {
            vstd::arithmetic::div_mod::lemma_div_denominator(n as int, 10, 10);
        }
        assert(s@ =~= dec_rep(n as int));
    }
    s
}

/// The two-character lowercase base-16 rendering of a byte.
pub fn hex_pair_string(b: u8) -> (s: String)
    ensures
        s@ == hex_pair_of(b as int),
{
    let mut s = String::from_str(digit_str(b / 16));
    s.append(digit_str(b % 16));
    proof {
        assert(s@ =~= hex_pair_of(b as int));
    }
    s
}

/// Parses a two-character base-16 byte, high digit first.
pub fn parse_hex_pair(s: &str) -> (b: u8)
    requires
        s@.len() == 2,
        is_hex_digit(s@[0]),
        is_hex_digit(s@[1]),
    ensures
        b as int == hex_pair_value(s@),
{
    let hi = hex_digit_to_value(s.get_char(0));
    let lo = hex_digit_to_value(s.get_char(1));
    16 * hi + lo
}

} // verus!
