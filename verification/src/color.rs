//! Hex border-color parsing.
//!
//! A border color is written as `#RRGGBB` or `#RRGGBBAA`. After stripping a
//! leading `#`, exactly 6 or 8 hex digits are accepted; anything else parses
//! to nothing and the caller substitutes an opaque-white default instead of
//! failing the frame. Channels are kept as 8-bit components; the division by
//! 255 into shader floats happens outside the verified core.

use vstd::prelude::*;

verus! {

/// One RGBA color, 8 bits per channel. `a == 255` is fully opaque.
#[derive(Clone, Copy, Debug, PartialEq, Eq, Structural)]
pub struct Color {
    pub r: u8,
    pub g: u8,
    pub b: u8,
    pub a: u8,
}

impl Color {
    /// Opaque white, the fallback for malformed border-color strings.
    pub fn white() -> (c: Color)
        ensures
            c == (Color { r: 255, g: 255, b: 255, a: 255 }),
    {
        Color { r: 255, g: 255, b: 255, a: 255 }
    }
}

/// Whether `c` is an ASCII hex digit (`0-9`, `a-f`, `A-F`).
pub open spec fn is_hex_digit(c: char) -> bool {
    (48 <= c as u32 && c as u32 <= 57)  // '0'..'9'
    || (97 <= c as u32 && c as u32 <= 102)  // 'a'..'f'
    || (65 <= c as u32 && c as u32 <= 70)  // 'A'..'F'
}

/// Numeric value of a hex digit; meaningful only when `is_hex_digit(c)`.
pub open spec fn hex_val(c: char) -> u8 {
    if 48 <= c as u32 && c as u32 <= 57 {
        ((c as u32) - 48) as u8
    } else if 97 <= c as u32 && c as u32 <= 102 {
        ((c as u32) - 87) as u8
    } else {
        ((c as u32) - 55) as u8
    }
}

/// The input with one leading `#` removed, if present.
pub open spec fn strip_hash(s: Seq<char>) -> Seq<char> {
    if s.len() > 0 && s[0] == '#' {
        s.subrange(1, s.len() as int)
    } else {
        s
    }
}

/// A parsable color string: after stripping the `#`, exactly 6 or 8
/// characters, all hex digits.
pub open spec fn valid_hex_color(s: Seq<char>) -> bool {
    let h = strip_hash(s);
    (h.len() == 6 || h.len() == 8) && (forall|i: int| 0 <= i < h.len() ==> is_hex_digit(#[trigger] h[i]))
}

/// The `i`th byte pair of a stripped hex string.
pub open spec fn byte_at(h: Seq<char>, i: int) -> u8 {
    (hex_val(h[2 * i]) * 16 + hex_val(h[2 * i + 1])) as u8
}

/// The color a valid hex string denotes: byte pairs are red, green, blue,
/// and, for 8-digit strings, alpha; 6-digit strings are fully opaque.
pub open spec fn parsed_color(s: Seq<char>) -> Color {
    let h = strip_hash(s);
    Color {
        r: byte_at(h, 0),
        g: byte_at(h, 1),
        b: byte_at(h, 2),
        a: if h.len() == 8 {
            byte_at(h, 3)
        } else {
            255
        },
    }
}

/// Runtime test for [`is_hex_digit`].
pub fn is_ascii_hex_digit(c: char) -> (r: bool)
    ensures
        r == is_hex_digit(c),
{
    let u = c as u32;
    (48 <= u && u <= 57) || (97 <= u && u <= 102) || (65 <= u && u <= 70)
}

/// Numeric value of one hex digit character, or nothing for any other
/// character.
fn hex_digit_value(c: char) -> (res: Option<u8>)
    ensures
        res == if is_hex_digit(c) {
            Some(hex_val(c))
        } else {
            None::<u8>
        },
        res matches Some(v) ==> v <= 15,
{
    let u = c as u32;
    if 48 <= u && u <= 57 {
        Some((u - 48) as u8)
    } else if 97 <= u && u <= 102 {
        Some((u - 87) as u8)
    } else if 65 <= u && u <= 70 {
        Some((u - 55) as u8)
    } else {
        None
    }
}

/// The byte written at character positions `at` and `at + 1` of `s`, or
/// nothing if either character is not a hex digit.
fn hex_byte(s: &str, at: usize) -> (res: Option<u8>)
    requires
        at + 2 <= s@.len(),
        at + 2 <= usize::MAX,
    ensures
        res matches Some(v) ==> is_hex_digit(s@[at as int]) && is_hex_digit(s@[at as int + 1])
            && v == hex_val(s@[at as int]) * 16 + hex_val(s@[at as int + 1]),
        res is None ==> !(is_hex_digit(s@[at as int]) && is_hex_digit(s@[at as int + 1])),
{
    let hi = match hex_digit_value(s.get_char(at)) {
        Some(v) => v,
        None => {
            return None;
        },
    };
    let lo = match hex_digit_value(s.get_char(at + 1)) {
        Some(v) => v,
        None => {
            return None;
        },
    };
    Some(hi * 16 + lo)
}

/// Parses a `#RRGGBB` or `#RRGGBBAA` string into a color.
///
/// Succeeds exactly on the strings `valid_hex_color` accepts and then
/// returns the color they denote; every other input yields `None`, which
/// callers answer with the default color rather than an error.
pub fn parse_color(s: &str) -> (res: Option<Color>)
    ensures
        res == if valid_hex_color(s@) {
            Some(parsed_color(s@))
        } else {
            None::<Color>
        },
{
    let total = s.unicode_len();
    let offset: usize = if total > 0 && s.get_char(0) == '#' {
        1
    } else {
        0
    };
    let len = total - offset;
    proof {
        assert(strip_hash(s@) =~= s@.subrange(offset as int, total as int));
    }
    if len != 6 && len != 8 {
        return None;
    }
    let ghost h = strip_hash(s@);
    let r = match hex_byte(s, offset) {
        Some(v) => v,
        None => {
            return None;
        },
    };
    let g = match hex_byte(s, offset + 2) {
        Some(v) => v,
        None => {
            return None;
        },
    };
    let b = match hex_byte(s, offset + 4) {
        Some(v) => v,
        None => {
            return None;
        },
    };
    let a = if len == 8 {
        match hex_byte(s, offset + 6) {
            Some(v) => v,
            None => {
                return None;
            },
        }
    } else {
        255
    };
    proof {
        assert(forall|i: int| 0 <= i < h.len() ==> is_hex_digit(#[trigger] h[i])) by {
            assert(forall|i: int| 0 <= i < h.len() ==> h[i] == s@[offset + i]);
        }
    }
    Some(Color { r, g, b, a })
}

/// Every valid 6-digit hex string parses to a fully opaque color whose
/// channels are its three byte pairs.
pub proof fn lemma_six_digit_opaque(s: Seq<char>)
    requires
        valid_hex_color(s),
        strip_hash(s).len() == 6,
    ensures
        parsed_color(s).a == 255,
        parsed_color(s).r == byte_at(strip_hash(s), 0),
        parsed_color(s).g == byte_at(strip_hash(s), 1),
        parsed_color(s).b == byte_at(strip_hash(s), 2),
{
}

/// Every valid 8-digit hex string carries its alpha in the last byte pair.
pub proof fn lemma_eight_digit_alpha(s: Seq<char>)
    requires
        valid_hex_color(s),
        strip_hash(s).len() == 8,
    ensures
        parsed_color(s).a == byte_at(strip_hash(s), 3),
{
}

} // verus!
