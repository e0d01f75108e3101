//! Conversions between the colour formats. `RGB` and `Hex` convert exactly
//! in both directions; the paths through `HSV` rest on floating-point
//! arithmetic and live with the callers that own it.

use vstd::prelude::*;
use vstd::string::StringExecFns;
use crate::digits::{
    hex_pair_of,
    hex_pair_value,
    hex_pair_string,
    parse_hex_pair,
    lemma_digit_char_hex,
    lemma_hex_pair_round_trip,
};
use crate::errors::InvalidColourFormat;
use crate::formats::{RGB, Hex, all_hex_digits, strip_hash};

verus! {

/// The six lowercase digits that encode a channel triple in base 16.
pub open spec fn hex_encoding(r: int, g: int, b: int) -> Seq<char> {
    hex_pair_of(r) + hex_pair_of(g) + hex_pair_of(b)
}

/// The encoding of a triple is six base-16 digits and does not start with
/// a hash mark.
pub proof fn lemma_hex_encoding_valid(r: int, g: int, b: int)
    requires
        0 <= r < 256,
        0 <= g < 256,
        0 <= b < 256,
    ensures
        hex_encoding(r, g, b).len() == 6,
        all_hex_digits(hex_encoding(r, g, b)),
        strip_hash(hex_encoding(r, g, b)) == hex_encoding(r, g, b),
{
    let enc = hex_encoding(r, g, b);
    lemma_digit_char_hex(r / 16);
    lemma_digit_char_hex(r % 16);
    lemma_digit_char_hex(g / 16);
    lemma_digit_char_hex(g % 16);
    lemma_digit_char_hex(b / 16);
    lemma_digit_char_hex(b % 16);
    assert forall|i: int| 0 <= i < enc.len() implies crate::digits::is_hex_digit(
        #[trigger] enc[i],
    ) by {
        assert(enc[i] == hex_pair_of(r)[0] || enc[i] == hex_pair_of(r)[1] || enc[i]
            == hex_pair_of(g)[0] || enc[i] == hex_pair_of(g)[1] || enc[i] == hex_pair_of(b)[0]
            || enc[i] == hex_pair_of(b)[1]);
    }
}

/// Round-trip law: decoding the three digit pairs of the base-16 encoding
/// of a channel triple gives the triple back, so converting an `RGB` value
/// to `Hex` and back loses nothing.
pub proof fn lemma_rgb_hex_round_trip(r: u8, g: u8, b: u8)
    ensures
        hex_pair_value(hex_encoding(r as int, g as int, b as int).subrange(0, 2)) == r,
        hex_pair_value(hex_encoding(r as int, g as int, b as int).subrange(2, 4)) == g,
        hex_pair_value(hex_encoding(r as int, g as int, b as int).subrange(4, 6)) == b,
{
    let enc = hex_encoding(r as int, g as int, b as int);
    assert(enc.subrange(0, 2) =~= hex_pair_of(r as int));
    assert(enc.subrange(2, 4) =~= hex_pair_of(g as int));
    assert(enc.subrange(4, 6) =~= hex_pair_of(b as int));
    lemma_hex_pair_round_trip(r as int);
    lemma_hex_pair_round_trip(g as int);
    lemma_hex_pair_round_trip(b as int);
}

/// Converts an `RGB` triple to its hexadecimal literal: each channel
/// becomes a two-digit lowercase base-16 byte. Never fails.
pub fn rgb_to_hex(rgb: &RGB) -> (result: Result<Hex, InvalidColourFormat>)
    ensures
        result matches Ok(h) && h.spec_unhashed() == hex_encoding(
            rgb.spec_r() as int,
            rgb.spec_g() as int,
            rgb.spec_b() as int,
        ),
{
    let mut s = hex_pair_string(*rgb.r());
    let g_str = hex_pair_string(*rgb.g());
    s.append(g_str.as_str());
    let b_str = hex_pair_string(*rgb.b());
    s.append(b_str.as_str());
    proof {
        lemma_hex_encoding_valid(rgb.spec_r() as int, rgb.spec_g() as int, rgb.spec_b() as int);
    }
    Hex::new(s.as_str())
}

/// Converts a hexadecimal literal to the `RGB` triple its three digit
/// pairs encode. Never fails: a constructed literal holds valid digits.
pub fn hex_to_rgb(hex: &Hex) -> (result: Result<RGB, InvalidColourFormat>)
    ensures
        result matches Ok(rgb) && rgb.spec_r() as int == hex_pair_value(hex.spec_r())
            && rgb.spec_g() as int == hex_pair_value(hex.spec_g()) && rgb.spec_b() as int
            == hex_pair_value(hex.spec_b()),
{
    proof {
        use_type_invariant(hex);
    }
    let r = parse_hex_pair(hex.r().as_str());
    let g = parse_hex_pair(hex.g().as_str());
    let b = parse_hex_pair(hex.b().as_str());
    RGB::new(r, g, b)
}

} // verus!
