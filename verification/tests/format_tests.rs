use colours::errors::InvalidColourFormat;
use colours::formats::{Hex, RGB};

#[test]
fn rgb_new_works() {
    let rgb = RGB::new(255, 0, 255);
    assert!(rgb.is_ok());
    let rgb = rgb.unwrap();
    assert_eq!(*rgb.r(), 255);
    assert_eq!(*rgb.g(), 0);
    assert_eq!(*rgb.b(), 255);
}

#[test]
fn rgb_to_string_works() {
    let rgb = RGB::new(255, 0, 255).unwrap();
    let rgb_string = rgb.to_string();
    assert_eq!(rgb_string, "rgb(255, 0, 255)");
}

#[test]
fn rgb_to_string_no_padding() {
    let rgb = RGB::new(7, 42, 0).unwrap();
    assert_eq!(rgb.to_string(), "rgb(7, 42, 0)");
    let rgb = RGB::new(0, 0, 0).unwrap();
    assert_eq!(rgb.to_string(), "rgb(0, 0, 0)");
    let rgb = RGB::new(100, 10, 1).unwrap();
    assert_eq!(rgb.to_string(), "rgb(100, 10, 1)");
}

#[test]
fn hex_new_works() {
    let hex = Hex::new("#ff00ff");
    assert!(hex.is_ok());
    let hex = hex.unwrap();
    assert_eq!(hex.to_string(), "ff00ff");
    assert_eq!(hex.to_string_with_hash(), "#ff00ff");
    assert_eq!(hex.r(), "ff");
    assert_eq!(hex.g(), "00");
    assert_eq!(hex.b(), "ff");
}

#[test]
fn hex_new_fails_with_invalid_input() {
    let hex = Hex::new("#gggggg");
    assert!(hex.is_err());
}

#[test]
fn hex_new_reports_first_bad_character() {
    let hex = Hex::new("#ff00fg");
    assert_eq!(hex.unwrap_err(), InvalidColourFormat::HexParseError('g'));
    let hex = Hex::new("zz00ff");
    assert_eq!(hex.unwrap_err(), InvalidColourFormat::HexParseError('z'));
}

#[test]
fn hex_new_rejects_wrong_length() {
    assert_eq!(
        Hex::new("#fff").unwrap_err(),
        InvalidColourFormat::MalformedLiteralError
    );
    assert_eq!(
        Hex::new("").unwrap_err(),
        InvalidColourFormat::MalformedLiteralError
    );
    assert_eq!(
        Hex::new("ff00ff0").unwrap_err(),
        InvalidColourFormat::MalformedLiteralError
    );
}

#[test]
fn hex_normalization() {
    let bare = Hex::new("ff00ff").unwrap();
    let hashed = Hex::new("#ff00ff").unwrap();
    assert_eq!(bare, hashed);
    assert_eq!(bare.to_string(), "ff00ff");
    assert_eq!(hashed.to_string(), "ff00ff");
    assert_eq!(bare.to_string_with_hash(), "#ff00ff");
    assert_eq!(hashed.to_string_with_hash(), "#ff00ff");
}

#[test]
fn hex_accepts_uppercase_digits() {
    let hex = Hex::new("#FF00FF").unwrap();
    assert_eq!(hex.to_string(), "FF00FF");
    assert_eq!(hex.r(), "FF");
}

#[test]
fn hex_to_string_works() {
    let hex = Hex::new("ff00ff").unwrap();
    let hex_string = hex.to_string();
    let hex_string_with_hash = hex.to_string_with_hash();

    assert_eq!(hex_string, "ff00ff");
    assert_eq!(hex_string_with_hash, "#ff00ff");
}

#[test]
fn within_bounds_works() {
    assert!(colours::formats::within_bounds(5, 0, 255));
    assert!(colours::formats::within_bounds(0, 0, 255));
    assert!(colours::formats::within_bounds(255, 0, 255));
    assert!(!colours::formats::within_bounds(5, 6, 255));
    assert!(!colours::formats::within_bounds(9, 0, 8));
}
