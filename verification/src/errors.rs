use vstd::prelude::*;

verus! {

/// The closed set of failure reasons shared by the format constructors and
/// the conversion engine.
///
/// - `ArgOutOfBoundsError`: a constructed value's field falls outside its
///   declared legal range.
/// - `FailedConversionError`: an internal algorithmic invariant did not hold
///   (no channel identified as the maximum, or a hue sector out of range).
/// - `HexParseError`: a character of a hexadecimal literal is not a base-16
///   digit; carries the offending character for diagnostics.
/// - `MalformedLiteralError`: a hexadecimal literal does not have exactly six
///   digits after any leading `#` is stripped.
#[derive(Clone, Debug, PartialEq, Eq, Structural)]
pub enum InvalidColourFormat {
    ArgOutOfBoundsError,
    FailedConversionError,
    HexParseError(char),
    MalformedLiteralError,
}

} // verus!
