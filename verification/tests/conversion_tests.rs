use colours::conversions::{hex_to_rgb, rgb_to_hex};
use colours::digits::{decimal_str, hex_pair_string, parse_hex_pair};
use colours::formats::{Hex, RGB};

fn rgb_format() -> RGB {
    RGB::new(255, 0, 255).unwrap()
}

fn hex_format() -> Hex {
    Hex::new("#ff00ff").unwrap()
}

#[test]
fn rgb_to_hex_works() {
    assert_eq!(rgb_to_hex(&rgb_format()), Ok(hex_format()));
}

#[test]
fn hex_to_rgb_works() {
    assert_eq!(hex_to_rgb(&hex_format()), Ok(rgb_format()));
}

#[test]
fn rgb_hex_round_trip() {
    let triples: [(u8, u8, u8); 6] = [
        (0, 0, 0),
        (255, 255, 255),
        (12, 34, 56),
        (255, 0, 255),
        (1, 2, 3),
        (160, 80, 40),
    ];
    for &(r, g, b) in triples.iter() {
        let rgb = RGB::new(r, g, b).unwrap();
        let hex = rgb_to_hex(&rgb).unwrap();
        let back = hex_to_rgb(&hex).unwrap();
        assert_eq!(back, rgb);
    }
}

#[test]
fn rgb_to_hex_renders_lowercase_pairs() {
    let rgb = RGB::new(160, 11, 0).unwrap();
    let hex = rgb_to_hex(&rgb).unwrap();
    assert_eq!(hex.to_string(), "a00b00");
    assert_eq!(hex.to_string_with_hash(), "#a00b00");
}

#[test]
fn hex_to_rgb_parses_uppercase() {
    let hex = Hex::new("#FF00FF").unwrap();
    let rgb = hex_to_rgb(&hex).unwrap();
    assert_eq!(rgb, rgb_format());
}

#[test]
fn decimal_str_exact_values() {
    assert_eq!(decimal_str(0), "0");
    assert_eq!(decimal_str(9), "9");
    assert_eq!(decimal_str(10), "10");
    assert_eq!(decimal_str(99), "99");
    assert_eq!(decimal_str(100), "100");
    assert_eq!(decimal_str(255), "255");
}

#[test]
fn hex_pair_exact_values() {
    assert_eq!(hex_pair_string(0), "00");
    assert_eq!(hex_pair_string(15), "0f");
    assert_eq!(hex_pair_string(160), "a0");
    assert_eq!(hex_pair_string(255), "ff");
    assert_eq!(parse_hex_pair("ff"), 255);
    assert_eq!(parse_hex_pair("A0"), 160);
    assert_eq!(parse_hex_pair("00"), 0);
}

#[test]
pub fn it_works() {}
