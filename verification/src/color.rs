//! RGBA colors and hex color parsing.
//!
//! A color string is an optional leading `#` followed by exactly six
//! (`RRGGBB`, alpha fixed at 255) or eight (`RRGGBBAA`) hex digits. Any
//! other length, or any non-hex character, is a parse failure; callers
//! substitute a fallback color rather than abort.

use vstd::prelude::*;

verus! {

/// A color as four 8-bit channels: red, green, blue, alpha.
#[derive(Clone, Copy, PartialEq, Eq, Structural, Debug)]
pub struct Rgba {
    pub r: u8,
    pub g: u8,
    pub b: u8,
    pub a: u8,
}

/// Why a color string failed to parse.
#[derive(Clone, Copy, PartialEq, Eq, Structural, Debug)]
pub enum ColorError {
    /// After stripping an optional `#`, the length was neither 6 nor 8.
    UnsupportedLength,
    /// A character was not a hex digit.
    InvalidDigit,
}

/// Is `c` one of `0-9`, `A-F`, `a-f`?
pub open spec fn is_hex_digit(c: char) -> bool {
    (48 <= c as u32 && c as u32 <= 57)  // '0' ..= '9'
    || (65 <= c as u32 && c as u32 <= 70)  // 'A' ..= 'F'
    || (97 <= c as u32 && c as u32 <= 102)  // 'a' ..= 'f'
}

/// The numeric value of a hex digit, 0 through 15.
pub open spec fn hex_digit_val(c: char) -> u8
    recommends
        is_hex_digit(c),
{
    if 48 <= c as u32 && c as u32 <= 57 {
        (c as u32 - 48) as u8
    } else if 65 <= c as u32 && c as u32 <= 70 {
        (c as u32 - 55) as u8
    } else {
        (c as u32 - 87) as u8
    }
}

/// The byte named by two hex digits, high digit first.
pub open spec fn hex_byte(hi: char, lo: char) -> u8
    recommends
        is_hex_digit(hi),
        is_hex_digit(lo),
{
    (hex_digit_val(hi) * 16 + hex_digit_val(lo)) as u8
}

/// The string with one leading `#` removed, if present.
pub open spec fn strip_hash(s: Seq<char>) -> Seq<char> {
    if s.len() > 0 && s[0] == '#' {
        s.drop_first()
    } else {
        s
    }
}

/// Every character is a hex digit.
pub open spec fn all_hex_digits(s: Seq<char>) -> bool {
    forall|i: int| 0 <= i < s.len() ==> is_hex_digit(#[trigger] s[i])
}

/// A parseable color string: after stripping an optional `#`, exactly six
/// or eight hex digits.
pub open spec fn is_valid_hex_color(s: Seq<char>) -> bool {
    let h = strip_hash(s);
    (h.len() == 6 || h.len() == 8) && all_hex_digits(h)
}

/// The color a valid hex string names: channel bytes in `RRGGBB` or
/// `RRGGBBAA` order, alpha 255 when only six digits are given.
pub open spec fn spec_parsed_color(s: Seq<char>) -> Rgba
    recommends
        is_valid_hex_color(s),
{
    let h = strip_hash(s);
    Rgba {
        r: hex_byte(h[0], h[1]),
        g: hex_byte(h[2], h[3]),
        b: hex_byte(h[4], h[5]),
        a: if h.len() == 8 {
            hex_byte(h[6], h[7])
        } else {
            255
        },
    }
}

/// The numeric value of one hex digit character, or `None` for any other
/// character.
pub fn hex_digit_value(c: char) -> (r: Option<u8>)
    ensures
        r is Some <==> is_hex_digit(c),
        r is Some ==> r->0 == hex_digit_val(c),
{
    let u = c as u32;
    if 48 <= u && u <= 57 {
        Some((u - 48) as u8)
    } else if 65 <= u && u <= 70 {
        Some((u - 55) as u8)
    } else if 97 <= u && u <= 102 {
        Some((u - 87) as u8)
    } else {
        None
    }
}

/// The byte named by the two hex digits of `s` at character positions `i`
/// and `i + 1`, or `None` if either is not a hex digit.
fn hex_pair(s: &str, i: usize) -> (r: Option<u8>)
    requires
        i + 1 < s@.len(),
        s@.len() <= usize::MAX,
    ensures
        r is Some <==> is_hex_digit(s@[i as int]) && is_hex_digit(s@[i + 1]),
        r is Some ==> r->0 == hex_byte(s@[i as int], s@[i + 1]),
{
    let hi = match hex_digit_value(s.get_char(i)) {
        Some(v) => v,
        None => {
            return None;
        },
    };
    let lo = match hex_digit_value(s.get_char(i + 1)) {
        Some(v) => v,
        None => {
            return None;
        },
    };
    Some(hi * 16 + lo)
}

/// Parse a hex color string: an optional leading `#`, then `RRGGBB`
/// (alpha 255) or `RRGGBBAA`. Succeeds exactly on valid strings and
/// never panics; the error says whether the length or a digit was wrong.
pub fn parse_hex_color(s: &str) -> (r: Result<Rgba, ColorError>)
    ensures
        r is Ok <==> is_valid_hex_color(s@),
        is_valid_hex_color(s@) ==> r == Ok::<Rgba, ColorError>(spec_parsed_color(s@)),
        !(strip_hash(s@).len() == 6 || strip_hash(s@).len() == 8) ==> r == Err::<
            Rgba,
            ColorError,
        >(ColorError::UnsupportedLength),
        (strip_hash(s@).len() == 6 || strip_hash(s@).len() == 8) && !all_hex_digits(strip_hash(s@))
            ==> r == Err::<Rgba, ColorError>(ColorError::InvalidDigit),
{
    let n = s.unicode_len();
    let off: usize = if n > 0 && s.get_char(0) == '#' {
        1
    } else {
        0
    };
    let ghost h = strip_hash(s@);
    proof {
        assert(h.len() == n - off);
        assert forall|j: int| 0 <= j < h.len() implies h[j] == s@[off + j] by {
        }
    }
    let m = n - off;
    if m != 6 && m != 8 {
        return Err(ColorError::UnsupportedLength);
    }
    let r = match hex_pair(s, off) {
        Some(v) => v,
        None => {
            proof {
                assert(h[0] == s@[off as int] && h[1] == s@[off + 1]);
            }
            return Err(ColorError::InvalidDigit);
        },
    };
    let g = match hex_pair(s, off + 2) {
        Some(v) => v,
        None => {
            proof {
                assert(h[2] == s@[off + 2] && h[3] == s@[off + 3]);
            }
            return Err(ColorError::InvalidDigit);
        },
    };
    let b = match hex_pair(s, off + 4) {
        Some(v) => v,
        None => {
            proof {
                assert(h[4] == s@[off + 4] && h[5] == s@[off + 5]);
            }
            return Err(ColorError::InvalidDigit);
        },
    };
    if m == 8 {
        let a = match hex_pair(s, off + 6) {
            Some(v) => v,
            None => {
                proof {
                    assert(h[6] == s@[off + 6] && h[7] == s@[off + 7]);
                }
                return Err(ColorError::InvalidDigit);
            },
        };
        proof {
            assert(all_hex_digits(h)) by {
                assert forall|j: int| 0 <= j < h.len() implies is_hex_digit(h[j]) by {
                    assert(h[j] == s@[off + j]);
                }
            }
        }
        Ok(Rgba { r, g, b, a })
    } else {
        proof {
            assert(all_hex_digits(h)) by {
                assert forall|j: int| 0 <= j < h.len() implies is_hex_digit(h[j]) by {
                    assert(h[j] == s@[off + j]);
                }
            }
        }
        Ok(Rgba { r, g, b, a: 255 })
    }
}

/// What resolving a color string yields: the parsed color when the string
/// is valid, the given fallback otherwise.
pub open spec fn spec_resolve_color(s: Seq<char>, fallback: Rgba) -> Rgba {
    if is_valid_hex_color(s) {
        spec_parsed_color(s)
    } else {
        fallback
    }
}

/// Resolve a color string, substituting `fallback` for anything that does
/// not parse. Never fails.
pub fn resolve_color(s: &str, fallback: Rgba) -> (c: Rgba)
    ensures
        c == spec_resolve_color(s@, fallback),
{
    match parse_hex_color(s) {
        Ok(c) => c,
        Err(_) => fallback,
    }
}

/// The fallback background: opaque dark red.
pub open spec fn spec_fallback_background() -> Rgba {
    Rgba { r: 204, g: 0, b: 0, a: 255 }
}

/// The fallback background color, substituted when a background string
/// fails to parse. Opaque dark red, the same color `#cc0000` names.
pub fn fallback_background() -> (c: Rgba)
    ensures
        c == spec_fallback_background(),
{
    Rgba { r: 204, g: 0, b: 0, a: 255 }
}

/// The fallback foreground: opaque white.
pub open spec fn spec_fallback_foreground() -> Rgba {
    Rgba { r: 255, g: 255, b: 255, a: 255 }
}

/// The fallback foreground color, substituted when a foreground string
/// fails to parse. Opaque white, the same color `#ffffff` names.
pub fn fallback_foreground() -> (c: Rgba)
    ensures
        c == spec_fallback_foreground(),
{
    Rgba { r: 255, g: 255, b: 255, a: 255 }
}

} // verus!
