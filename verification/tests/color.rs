use nlock::util::{Rgba, RgbaParseError};

#[test]
fn parses_six_digits_as_opaque() {
    assert_eq!(Rgba::from_str("#ff8000"), Ok(Rgba { r: 255, g: 128, b: 0, a: 255 }));
}

#[test]
fn parses_eight_digits_with_alpha() {
    assert_eq!(Rgba::from_str("#FF800040"), Ok(Rgba { r: 255, g: 128, b: 0, a: 64 }));
}

#[test]
fn hash_is_optional() {
    assert_eq!(Rgba::from_str("000000"), Ok(Rgba { r: 0, g: 0, b: 0, a: 255 }));
}

#[test]
fn rejects_other_lengths() {
    assert_eq!(Rgba::from_str("#fff"), Err(RgbaParseError::Format));
    assert_eq!(Rgba::from_str(""), Err(RgbaParseError::Format));
    assert_eq!(Rgba::from_str("##000000"), Err(RgbaParseError::Format));
}

#[test]
fn rejects_what_is_no_hex_digit() {
    assert_eq!(Rgba::from_str("#gg0000"), Err(RgbaParseError::Digit));
    assert_eq!(Rgba::from_str("#+f+f+f"), Err(RgbaParseError::Digit));
}

#[test]
fn parse_error_messages() {
    assert_eq!(RgbaParseError::Format.message(), "expected RRGGBBAA or RRGGBB format");
    assert_eq!(RgbaParseError::Digit.message(), "invalid digit found in string");
}

#[test]
fn default_color_is_opaque_black() {
    assert_eq!(Rgba::default(), Rgba::new(0, 0, 0, 255));
}

#[test]
fn digits_of_either_case_agree() {
    assert_eq!(Rgba::from_str("#abcdef"), Rgba::from_str("#ABCDEF"));
    assert_eq!(Rgba::from_str("#abcdef"), Ok(Rgba { r: 0xab, g: 0xcd, b: 0xef, a: 255 }));
}

#[test]
fn rejects_text_that_is_not_ascii() {
    assert_eq!(Rgba::from_str("ééé"), Err(RgbaParseError::Digit));
    assert_eq!(Rgba::from_str("#0000é"), Err(RgbaParseError::Digit));
}
