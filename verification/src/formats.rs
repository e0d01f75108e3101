//! The colour format types: `RGB` triples and `Hex` literals, each an
//! immutable value with a validating constructor.

use vstd::prelude::*;
use vstd::string::StringExecFns;
use vstd::string::StrSliceExecFns;
use crate::digits::{is_hex_digit, dec_rep, parse_hex_pair};
use crate::errors::InvalidColourFormat;

verus! {

/// Whether a value lies inside a closed interval.
pub fn within_bounds(val: u8, min: u8, max: u8) -> (r: bool)
    ensures
        r == (min <= val && val <= max),
{
    min <= val && val <= max
}

/// The literal with a single leading hash mark removed, if one is there.
pub open spec fn strip_hash(s: Seq<char>) -> Seq<char> {
    if s.len() > 0 && s[0] == '#' {
        s.skip(1)
    } else {
        s
    }
}

/// True when every character is a base-16 digit.
pub open spec fn all_hex_digits(s: Seq<char>) -> bool {
    forall|i: int| 0 <= i < s.len() ==> is_hex_digit(#[trigger] s[i])
}

/// The first character of `s` that is not a base-16 digit.
pub open spec fn first_bad_char(s: Seq<char>) -> char
    decreases s.len(),
{
    if s.len() == 0 {
        ' '
    } else if !is_hex_digit(s[0]) {
        s[0]
    } else {
        first_bad_char(s.skip(1))
    }
}

/// If everything before position `i` is a base-16 digit and the character
/// there is not, that character is the first bad one.
pub proof fn lemma_first_bad_char(s: Seq<char>, i: int)
    requires
        0 <= i < s.len(),
        !is_hex_digit(s[i]),
        forall|j: int| 0 <= j < i ==> is_hex_digit(#[trigger] s[j]),
    ensures
        first_bad_char(s) == s[i],
    decreases i,
{
    if i > 0 {
        lemma_first_bad_char(s.skip(1), i - 1);
    }
}

/// Normalization law: a literal that does not start with a hash mark and
/// the same literal with one in front strip to the same six digits, so the
/// two constructions agree in every field.
pub proof fn lemma_hash_normalization(s: Seq<char>)
    requires
        s.len() == 0 || s[0] != '#',
    ensures
        strip_hash(seq!['#'] + s) == strip_hash(s),
{
    assert((seq!['#'] + s).skip(1) =~= s);
}

/// The rendering `rgb(R, G, B)` with decimal channels and no padding.
pub open spec fn spec_rgb_string(r: u8, g: u8, b: u8) -> Seq<char> {
    "rgb("@ + dec_rep(r as int) + ", "@ + dec_rep(g as int) + ", "@ + dec_rep(b as int) + ")"@
}

/// An RGB triple: three 8-bit channels, red, green and blue. The channel
/// width already bounds each value, so there is no further invariant.
#[derive(Clone, Debug, PartialEq, Eq, Structural)]
pub struct RGB {
    r: u8,
    g: u8,
    b: u8,
}

impl RGB {
    /// The red channel, for contracts.
    pub closed spec fn spec_r(self) -> u8 {
        self.r
    }

    /// The green channel, for contracts.
    pub closed spec fn spec_g(self) -> u8 {
        self.g
    }

    /// The blue channel, for contracts.
    pub closed spec fn spec_b(self) -> u8 {
        self.b
    }

    /// Builds a triple from three channel values. The integer width already
    /// enforces the legal range, so construction always succeeds; the
    /// `Result` keeps the constructor's shape uniform with the other
    /// formats and leaves room for stricter range policies.
    pub fn new(r: u8, g: u8, b: u8) -> (result: Result<Self, InvalidColourFormat>)
        ensures
            result matches Ok(rgb) && rgb.spec_r() == r && rgb.spec_g() == g && rgb.spec_b()
                == b,
    {
        Ok(Self { r, g, b })
    }

    /// Renders as `rgb(R, G, B)`.
    pub fn to_string(&self) -> (s: String)
        ensures
            s@ == spec_rgb_string(self.spec_r(), self.spec_g(), self.spec_b()),
    {
        let mut s = String::from_str("rgb(");
        let r_str = crate::digits::decimal_str(self.r);
        s.append(r_str.as_str());
        s.append(", ");
        let g_str = crate::digits::decimal_str(self.g);
        s.append(g_str.as_str());
        s.append(", ");
        let b_str = crate::digits::decimal_str(self.b);
        s.append(b_str.as_str());
        s.append(")");
        s
    }

    /// The red channel.
    pub fn r(&self) -> (c: &u8)
        ensures
            *c == self.spec_r(),
    {
        &self.r
    }

    /// The green channel.
    pub fn g(&self) -> (c: &u8)
        ensures
            *c == self.spec_g(),
    {
        &self.g
    }

    /// The blue channel.
    pub fn b(&self) -> (c: &u8)
        ensures
            *c == self.spec_b(),
    {
        &self.b
    }
}

/// A six-digit hexadecimal colour literal, kept in its hashed and unhashed
/// forms together with the three two-character channel substrings.
#[derive(Debug)]
pub struct Hex {
    hashed_str: String,
    unhashed_str: String,
    r: String,
    g: String,
    b: String,
}

impl Hex {
    /// The six digits without the hash mark, for contracts.
    pub closed spec fn spec_unhashed(self) -> Seq<char> {
        self.unhashed_str@
    }

    /// The literal with the hash mark in front, for contracts.
    pub closed spec fn spec_hashed(self) -> Seq<char> {
        self.hashed_str@
    }

    /// The red digit pair, for contracts.
    pub closed spec fn spec_r(self) -> Seq<char> {
        self.r@
    }

    /// The green digit pair, for contracts.
    pub closed spec fn spec_g(self) -> Seq<char> {
        self.g@
    }

    /// The blue digit pair, for contracts.
    pub closed spec fn spec_b(self) -> Seq<char> {
        self.b@
    }

    /// Well-formedness: exactly six base-16 digits, the hashed form is the
    /// unhashed form with a hash mark in front, and the channel substrings
    /// are the three digit pairs in order.
    #[verifier::type_invariant]
    pub open spec fn wf(self) -> bool {
        &&& self.spec_unhashed().len() == 6
        &&& all_hex_digits(self.spec_unhashed())
        &&& self.spec_hashed() == seq!['#'] + self.spec_unhashed()
        &&& self.spec_r() == self.spec_unhashed().subrange(0, 2)
        &&& self.spec_g() == self.spec_unhashed().subrange(2, 4)
        &&& self.spec_b() == self.spec_unhashed().subrange(4, 6)
    }

    /// Builds a literal from a string, with or without a leading hash mark.
    /// Rejects a literal that does not have exactly six characters after
    /// the hash is stripped, and a literal with a character that is not a
    /// base-16 digit; the error carries the first such character.
    pub fn new(hex: &str) -> (result: Result<Self, InvalidColourFormat>)
        ensures
            (match result {
                Ok(h) => {
                    let t = strip_hash(hex@);
                    &&& t.len() == 6
                    &&& all_hex_digits(t)
                    &&& h.spec_unhashed() == t
                    &&& h.spec_hashed() == seq!['#'] + t
                    &&& h.spec_r() == t.subrange(0, 2)
                    &&& h.spec_g() == t.subrange(2, 4)
                    &&& h.spec_b() == t.subrange(4, 6)
                },
                Err(e) => {
                    let t = strip_hash(hex@);
                    &&& !(t.len() == 6 && all_hex_digits(t))
                    &&& (e == InvalidColourFormat::MalformedLiteralError <==> t.len() != 6)
                    &&& (t.len() == 6 ==> e == InvalidColourFormat::HexParseError(
                        first_bad_char(t),
                    ))
                },
            }),
    {
        let len = hex.unicode_len();
        let has_hash = if len > 0 {
            hex.get_char(0) == '#'
        } else {
            false
        };

        let unhashed_str: String = if has_hash {
            hex.substring_char(1, len).to_owned()
        } else {
            hex.to_owned()
        };
        let hashed_str: String = if has_hash {
            hex.to_owned()
        } else {
            let mut h = String::from_str("#");
            h.append(hex);
            h
        };

        proof {
            reveal_strlit("#");
            assert(unhashed_str@ =~= strip_hash(hex@));
            assert(hashed_str@ =~= seq!['#'] + strip_hash(hex@));
        }

        if unhashed_str.as_str().unicode_len() != 6 {
            return Err(InvalidColourFormat::MalformedLiteralError);
        }

        let mut i: usize = 0;
        while i < 6
            invariant
                i <= 6,
                unhashed_str@.len() == 6,
                unhashed_str@ == strip_hash(hex@),
                hashed_str@ == seq!['#'] + strip_hash(hex@),
                forall|j: int| 0 <= j < i ==> is_hex_digit(#[trigger] unhashed_str@[j]),
            decreases 6 - i,
        {
            let c = unhashed_str.as_str().get_char(i);
            if !crate::digits::hex_digit_check(c) {
                proof {
                    lemma_first_bad_char(unhashed_str@, i as int);
                }
                return Err(InvalidColourFormat::HexParseError(c));
            }
            i += 1;
        }

        let r_slice = unhashed_str.as_str().substring_char(0, 2).to_owned();
        let g_slice = unhashed_str.as_str().substring_char(2, 4).to_owned();
        let b_slice = unhashed_str.as_str().substring_char(4, 6).to_owned();

        // A successful base-16 parse already yields a byte, so the
        // inherited range check on the parsed channels can only pass.
        let rv = parse_hex_pair(r_slice.as_str());
        let gv = parse_hex_pair(g_slice.as_str());
        let bv = parse_hex_pair(b_slice.as_str());
        let in_range = within_bounds(rv, 0, 255) && within_bounds(gv, 0, 255) && within_bounds(
            bv,
            0,
            255,
        );
        assert(in_range);

        Ok(Self { hashed_str, unhashed_str, r: r_slice, g: g_slice, b: b_slice })
    }

    /// Renders the six digits without the hash mark.
    pub fn to_string(&self) -> (s: String)
        ensures
            s@ == self.spec_unhashed(),
    {
        self.unhashed_str.clone()
    }

    /// Renders the literal with the hash mark in front.
    pub fn to_string_with_hash(&self) -> (s: String)
        ensures
            s@ == self.spec_hashed(),
    {
        self.hashed_str.clone()
    }

    /// The red digit pair.
    pub fn r(&self) -> (s: &String)
        ensures
            s@ == self.spec_r(),
    {
        &self.r
    }

    /// The green digit pair.
    pub fn g(&self) -> (s: &String)
        ensures
            s@ == self.spec_g(),
    {
        &self.g
    }

    /// The blue digit pair.
    pub fn b(&self) -> (s: &String)
        ensures
            s@ == self.spec_b(),
    {
        &self.b
    }
}

impl Clone for Hex {
    /// A clone keeps all five stored strings.
    fn clone(&self) -> (r: Self)
        ensures
            r == *self,
    {
        proof {
            use_type_invariant(self);
        }
        Self {
            hashed_str: self.hashed_str.clone(),
            unhashed_str: self.unhashed_str.clone(),
            r: self.r.clone(),
            g: self.g.clone(),
            b: self.b.clone(),
        }
    }
}

impl PartialEq for Hex {
    /// Two literals are equal when all five stored strings agree.
    fn eq(&self, other: &Self) -> (r: bool) {
        self.hashed_str == other.hashed_str && self.unhashed_str == other.unhashed_str
            && self.r == other.r && self.g == other.g && self.b == other.b
    }
}

impl vstd::std_specs::cmp::PartialEqSpecImpl for Hex {
    open spec fn obeys_eq_spec() -> bool {
        true
    }

    open spec fn eq_spec(&self, other: &Hex) -> bool {
        &&& self.spec_hashed() == other.spec_hashed()
        &&& self.spec_unhashed() == other.spec_unhashed()
        &&& self.spec_r() == other.spec_r()
        &&& self.spec_g() == other.spec_g()
        &&& self.spec_b() == other.spec_b()
    }
}

} // verus!
