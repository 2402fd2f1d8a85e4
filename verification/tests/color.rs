use label_it::color::{fallback_background, fallback_foreground, parse_hex_color, resolve_color, ColorError, Rgba};

fn rgba(r: u8, g: u8, b: u8, a: u8) -> Rgba {
    Rgba { r, g, b, a }
}

#[test]
fn six_digit_with_hash() {
    assert_eq!(parse_hex_color("#aabbcc"), Ok(rgba(170, 187, 204, 255)));
}

#[test]
fn six_digit_without_hash() {
    assert_eq!(parse_hex_color("aabbcc"), Ok(rgba(170, 187, 204, 255)));
}

#[test]
fn six_digit_alpha_is_opaque() {
    assert_eq!(parse_hex_color("#000000"), Ok(rgba(0, 0, 0, 255)));
    assert_eq!(parse_hex_color("ffffff"), Ok(rgba(255, 255, 255, 255)));
}

#[test]
fn six_digit_mixed_case() {
    assert_eq!(parse_hex_color("#AbCdEf"), Ok(rgba(171, 205, 239, 255)));
}

#[test]
fn default_background_string_parses_to_dark_red() {
    assert_eq!(parse_hex_color("#cc0000"), Ok(rgba(204, 0, 0, 255)));
}

#[test]
fn eight_digit_with_hash() {
    assert_eq!(parse_hex_color("#11223344"), Ok(rgba(17, 34, 51, 68)));
}

#[test]
fn eight_digit_without_hash() {
    assert_eq!(parse_hex_color("11223344"), Ok(rgba(17, 34, 51, 68)));
}

#[test]
fn eight_digit_transparent() {
    assert_eq!(parse_hex_color("#ffffff00"), Ok(rgba(255, 255, 255, 0)));
}

#[test]
fn empty_string_fails() {
    assert_eq!(parse_hex_color(""), Err(ColorError::UnsupportedLength));
}

#[test]
fn lone_hash_fails() {
    assert_eq!(parse_hex_color("#"), Err(ColorError::UnsupportedLength));
}

#[test]
fn three_digits_fail() {
    assert_eq!(parse_hex_color("#fff"), Err(ColorError::UnsupportedLength));
}

#[test]
fn seven_digits_fail() {
    assert_eq!(parse_hex_color("#fffffff"), Err(ColorError::UnsupportedLength));
}

#[test]
fn nine_digits_fail() {
    assert_eq!(parse_hex_color("#ffffffff0"), Err(ColorError::UnsupportedLength));
}

#[test]
fn non_hex_character_fails() {
    assert_eq!(parse_hex_color("zz0000"), Err(ColorError::InvalidDigit));
    assert_eq!(parse_hex_color("#cc00gg"), Err(ColorError::InvalidDigit));
}

#[test]
fn non_hex_in_alpha_fails() {
    assert_eq!(parse_hex_color("#112233x4"), Err(ColorError::InvalidDigit));
}

#[test]
fn hash_in_the_middle_fails() {
    assert_eq!(parse_hex_color("##aabbc"), Err(ColorError::InvalidDigit));
}

#[test]
fn surrounding_whitespace_fails() {
    assert_eq!(parse_hex_color(" #aabbcc "), Err(ColorError::UnsupportedLength));
}

#[test]
fn non_ascii_fails() {
    // Three characters: the stripped length is counted in characters.
    assert_eq!(parse_hex_color("ééé"), Err(ColorError::UnsupportedLength));
    // Six characters, none of them a hex digit.
    assert_eq!(parse_hex_color("éééééé"), Err(ColorError::InvalidDigit));
}

#[test]
fn resolve_keeps_valid_color() {
    assert_eq!(resolve_color("#336699", fallback_background()), rgba(51, 102, 153, 255));
}

#[test]
fn resolve_substitutes_fallback() {
    assert_eq!(resolve_color("notacolor", fallback_background()), rgba(204, 0, 0, 255));
    assert_eq!(resolve_color("notacolor", fallback_foreground()), rgba(255, 255, 255, 255));
}

#[test]
fn fallback_colors_are_documented_values() {
    assert_eq!(fallback_background(), rgba(204, 0, 0, 255));
    assert_eq!(fallback_foreground(), rgba(255, 255, 255, 255));
}
