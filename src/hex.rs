//! Hex color codes: six hexadecimal digits after an optional `#`.
use vstd::prelude::*;

verus! {

/// `c` is one of `0-9`, `a-f`, `A-F`.
pub open spec fn is_hex_digit(c: char) -> bool {
    ('0' <= c && c <= '9') || ('a' <= c && c <= 'f') || ('A' <= c && c <= 'F')
}

/// The value of the hexadecimal digit `c`.
pub open spec fn hex_value(c: char) -> nat {
    if '0' <= c && c <= '9' {
        (c as nat - '0' as nat) as nat
    } else if 'a' <= c && c <= 'f' {
        (c as nat - 'a' as nat + 10) as nat
    } else {
        (c as nat - 'A' as nat + 10) as nat
    }
}

/// `s` without its leading `#`, where it has one.
pub open spec fn hex_digits(s: Seq<char>) -> Seq<char> {
    if s.len() > 0 && s[0] == '#' {
        s.drop_first()
    } else {
        s
    }
}

/// `s` is six hexadecimal digits after an optional `#`.
pub open spec fn is_hex_color(s: Seq<char>) -> bool {
    let d = hex_digits(s);
    d.len() == 6 && forall|i: int| 0 <= i < 6 ==> #[trigger] is_hex_digit(d[i])
}

/// The byte written by the two hexadecimal digits `hi` and `lo`.
pub open spec fn hex_byte(hi: char, lo: char) -> u8 {
    (hex_value(hi) * 16 + hex_value(lo)) as u8
}

/// The color that `s` writes: digits 0-1 red, 2-3 green, 4-5 blue; `None`
/// where `s` is no hex color.
pub open spec fn parse_hex_color(s: Seq<char>) -> Option<(u8, u8, u8)> {
    if is_hex_color(s) {
        let d = hex_digits(s);
        Some((hex_byte(d[0], d[1]), hex_byte(d[2], d[3]), hex_byte(d[4], d[5])))
    } else {
        None
    }
}

/// The value of `c` as a hexadecimal digit, if it is one.
fn hex_digit_value(c: char) -> (r: Option<u8>)
    ensures
        is_hex_digit(c) ==> r == Some(hex_value(c) as u8) && hex_value(c) < 16,
        !is_hex_digit(c) ==> r is None,
{
    if '0' <= c && c <= '9' {
        Some((c as u32 - '0' as u32) as u8)
    } else if 'a' <= c && c <= 'f' {
        Some((c as u32 - 'a' as u32 + 10) as u8)
    } else if 'A' <= c && c <= 'F' {
        Some((c as u32 - 'A' as u32 + 10) as u8)
    } else {
        None
    }
}

/// The byte written by the characters `i` and `i + 1` of `s`, if both are
/// hexadecimal digits.
fn hex_pair(s: &str, i: usize) -> (r: Option<u8>)
    requires
        i + 1 < s@.len() <= usize::MAX,
    ensures
        is_hex_digit(s@[i as int]) && is_hex_digit(s@[i + 1]) ==> r == Some(
            hex_byte(s@[i as int], s@[i + 1]),
        ),
        !(is_hex_digit(s@[i as int]) && is_hex_digit(s@[i + 1])) ==> r is None,
{
    let hi = hex_digit_value(s.get_char(i));
    let lo = hex_digit_value(s.get_char(i + 1));
    match (hi, lo) {
        (Some(h), Some(l)) => Some(h * 16 + l),
        _ => None,
    }
}

/// Convert a hex color code to its red, green and blue channels.
///
/// The code is six hexadecimal digits (either case), after an optional `#`;
/// anything else gives `None`.
pub fn hex_to_rgb(hex: &str) -> (r: Option<(u8, u8, u8)>)
    ensures
        r == parse_hex_color(hex@),
{
    let n = hex.unicode_len();
    let start: usize = if n > 0 && hex.get_char(0) == '#' {
        1
    } else {
        0
    };
    let ghost d = hex_digits(hex@);
    assert(d =~= hex@.subrange(start as int, n as int));
    if n - start != 6 {
        return None;
    }
    let red = hex_pair(hex, start);
    let green = hex_pair(hex, start + 2);
    let blue = hex_pair(hex, start + 4);
    assert(forall|i: int| 0 <= i < 6 ==> d[i] == hex@[start + i]);
    match (red, green, blue) {
        (Some(r), Some(g), Some(b)) => {
            assert(is_hex_color(hex@)) by {
                assert forall|i: int| 0 <= i < 6 implies #[trigger] is_hex_digit(d[i]) by {
                    assert(d[i] == hex@[start + i]);
                }
            }
            Some((r, g, b))
        },
        _ => {
            assert(!is_hex_color(hex@)) by {
                if is_hex_color(hex@) {
                    assert(is_hex_digit(d[0]) && is_hex_digit(d[1]));
                    assert(is_hex_digit(d[2]) && is_hex_digit(d[3]));
                    assert(is_hex_digit(d[4]) && is_hex_digit(d[5]));
                }
            }
            None
        },
    }
}

} // verus!
