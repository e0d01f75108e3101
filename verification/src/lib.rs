//! A colour representation and conversion library.
//!
//! Colour values are immutable value types with validating constructors:
//! `RGB` triples of 8-bit channels and six-digit hexadecimal literals
//! (`Hex`), converted exactly in both directions. A conversion never
//! mutates its input: it builds a fresh value in the target format or
//! reports one of a closed set of errors. The hue-saturation-value format
//! and the paths through it compute in floating point and live with the
//! embedding application, on top of the constructors and conversions here.

pub mod conversions;
pub mod digits;
pub mod errors;
pub mod formats;
