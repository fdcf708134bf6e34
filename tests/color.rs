use iced_themer::{parse_color, ColorError, HexColor};

fn rgb(r: u8, g: u8, b: u8) -> HexColor {
    HexColor::from_rgba8(r, g, b, 255)
}

#[test]
fn parse_hex_6_digit() {
    let c = parse_color("#FF8000").unwrap();
    assert_eq!(c, rgb(255, 128, 0));
}

#[test]
fn parse_hex_3_digit() {
    let c = parse_color("#F80").unwrap();
    // #F80 expands to #FF8800
    assert_eq!(c, rgb(0xFF, 0x88, 0x00));
}

#[test]
fn parse_hex_8_digit() {
    let c = parse_color("#FF800080").unwrap();
    assert_eq!(c, HexColor::from_rgba8(255, 128, 0, 128));
}

#[test]
fn parse_named_colors() {
    assert_eq!(parse_color("black").unwrap(), HexColor::black());
    assert_eq!(parse_color("White").unwrap(), HexColor::white());
    assert_eq!(parse_color("TRANSPARENT").unwrap(), HexColor::transparent());
}

#[test]
fn parse_lowercase_hex() {
    let c = parse_color("#ff8000").unwrap();
    assert_eq!(c, rgb(255, 128, 0));
}

#[test]
fn parse_missing_hash() {
    assert!(parse_color("FF8000").is_err());
}

#[test]
fn parse_wrong_length() {
    assert!(parse_color("#FFFF").is_err());
}

#[test]
fn parse_invalid_hex() {
    assert!(parse_color("#ZZZZZZ").is_err());
}

#[test]
fn named_color_constants() {
    assert_eq!(HexColor::black(), HexColor::from_rgba8(0, 0, 0, 255));
    assert_eq!(HexColor::white(), HexColor::from_rgba8(255, 255, 255, 255));
    assert_eq!(HexColor::transparent(), HexColor::from_rgba8(0, 0, 0, 0));
}

#[test]
fn color_errors_name_their_cause() {
    assert_eq!(parse_color("FF8000"), Err(ColorError::MissingPrefix));
    assert_eq!(parse_color("#FFFF"), Err(ColorError::WrongLength(4)));
    assert_eq!(parse_color("#ZZZZZZ"), Err(ColorError::InvalidHexByte(0)));
    assert_eq!(parse_color("#FFZZFF"), Err(ColorError::InvalidHexByte(2)));
    assert_eq!(parse_color("#FZF"), Err(ColorError::InvalidHexDigit(1)));
    assert_eq!(parse_color(""), Err(ColorError::MissingPrefix));
    assert_eq!(parse_color("#"), Err(ColorError::WrongLength(0)));
}

#[test]
fn color_error_messages() {
    assert_eq!(ColorError::WrongLength(4).message(), "expected 3, 6, or 8 hex digits after '#', got 4");
    assert_eq!(ColorError::InvalidHexDigit(1).message(), "invalid hex digit at position 1");
    assert_eq!(ColorError::InvalidHexByte(12).message(), "invalid hex byte at position 12");
    assert!(ColorError::MissingPrefix.message().contains("named color"));
}

#[test]
fn six_digit_round_trip_is_upper_case() {
    assert_eq!(parse_color("#ff8000").unwrap().to_hex(), "#FF8000");
    assert_eq!(parse_color("#66c0f4").unwrap().to_hex(), "#66C0F4");
    assert_eq!(parse_color("#000000").unwrap().to_hex(), "#000000");
}

#[test]
fn eight_digit_round_trip_keeps_alpha() {
    assert_eq!(parse_color("#ff800080").unwrap().to_hex(), "#FF800080");
    assert_eq!(parse_color("#12345600").unwrap().to_hex(), "#12345600");
}

#[test]
fn opaque_eight_digit_prints_six_digits() {
    assert_eq!(parse_color("#FF8000FF").unwrap().to_hex(), "#FF8000");
}

#[test]
fn three_digit_round_trip_expands() {
    assert_eq!(parse_color("#F80").unwrap().to_hex(), "#FF8800");
    assert_eq!(parse_color("#abc").unwrap().to_hex(), "#AABBCC");
}

#[test]
fn named_colors_print_canonically() {
    assert_eq!(parse_color("white").unwrap().to_hex(), "#FFFFFF");
    assert_eq!(parse_color("transparent").unwrap().to_hex(), "#00000000");
}
