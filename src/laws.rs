//! Facts that relate the styling operations to one another.
use vstd::prelude::*;

use crate::colorize::{hex_styled, hsl_styled, Colorize};
use crate::config::colorize_allowed;
use crate::hex::{hex_byte, hex_value, is_hex_color, is_hex_digit, parse_hex_color};
use crate::sgr::{cleared, reset, sgr, styled, truecolor_params, Layer};

verus! {

/// The lower-case hexadecimal digit for `n < 16`.
pub open spec fn hex_digit_char(n: nat) -> char {
    seq!['0', '1', '2', '3', '4', '5', '6', '7', '8', '9', 'a', 'b', 'c', 'd', 'e', 'f'][n as int]
}

/// The six-digit hex code of `(r, g, b)`, without `#`.
pub open spec fn hex_code(r: u8, g: u8, b: u8) -> Seq<char> {
    seq![
        hex_digit_char(r as nat / 16),
        hex_digit_char(r as nat % 16),
        hex_digit_char(g as nat / 16),
        hex_digit_char(g as nat % 16),
        hex_digit_char(b as nat / 16),
        hex_digit_char(b as nat % 16),
    ]
}

proof fn lemma_hex_digit_char(n: nat)
    requires
        n < 16,
    ensures
        is_hex_digit(hex_digit_char(n)),
        hex_value(hex_digit_char(n)) == n,
{
}

proof fn lemma_hex_byte_of(v: u8)
    ensures
        is_hex_digit(hex_digit_char(v as nat / 16)),
        is_hex_digit(hex_digit_char(v as nat % 16)),
        hex_byte(hex_digit_char(v as nat / 16), hex_digit_char(v as nat % 16)) == v,
{
    lemma_hex_digit_char(v as nat / 16);
    lemma_hex_digit_char(v as nat % 16);
}

/// A hex code that is not six hexadecimal digits after an optional `#`
/// styles the text as `clear` does, whether styling is enabled or not.
pub proof fn invalid_hex_clears(layer: Layer, code: Seq<char>, text: Seq<char>, enabled: bool)
    requires
        !is_hex_color(code),
    ensures
        hex_styled(layer, code, text, enabled) == cleared(text),
{
}

/// A leading `#` makes no difference to a hex code.
pub proof fn hash_is_optional(layer: Layer, digits: Seq<char>, text: Seq<char>, enabled: bool)
    requires
        digits.len() == 0 || digits[0] != '#',
    ensures
        hex_styled(layer, seq!['#'] + digits, text, enabled) == hex_styled(
            layer,
            digits,
            text,
            enabled,
        ),
{
    assert((seq!['#'] + digits).drop_first() =~= digits);
}

/// Round trip: the hex code of any `(r, g, b)`, with or without `#`, parses
/// back to it, and styles the text as `rgb(r, g, b)` does.
pub proof fn hex_code_round_trip(layer: Layer, r: u8, g: u8, b: u8, text: Seq<char>, enabled: bool)
    ensures
        parse_hex_color(hex_code(r, g, b)) == Some((r, g, b)),
        parse_hex_color(seq!['#'] + hex_code(r, g, b)) == Some((r, g, b)),
        hex_styled(layer, hex_code(r, g, b), text, enabled) == styled(
            truecolor_params(layer, r, g, b),
            text,
            enabled,
        ),
        hex_styled(layer, seq!['#'] + hex_code(r, g, b), text, enabled) == styled(
            truecolor_params(layer, r, g, b),
            text,
            enabled,
        ),
{
    let d = hex_code(r, g, b);
    lemma_hex_byte_of(r);
    lemma_hex_byte_of(g);
    lemma_hex_byte_of(b);
    assert(forall|i: int| 0 <= i < 6 ==> #[trigger] is_hex_digit(d[i]));
    assert(is_hex_color(d));
    hash_is_optional(layer, d, text, enabled);
}

/// While the disabling environment variable is present, the policy withholds
/// styling whatever the configuration and the destination, and every
/// operation that obeys it, chained or not, returns the text unchanged (a
/// valid hex code included; an invalid one falls back to `clear`).
pub proof fn no_color_leaves_text_plain(check_terminal: bool, is_terminal: bool, text: Seq<char>)
    ensures
        !colorize_allowed(check_terminal, true, is_terminal),
        forall|params: Seq<char>|
            #[trigger] styled(params, text, colorize_allowed(check_terminal, true, is_terminal))
                == text,
        forall|outer: Seq<char>, inner: Seq<char>|
            #[trigger] styled(
                outer,
                styled(inner, text, colorize_allowed(check_terminal, true, is_terminal)),
                colorize_allowed(check_terminal, true, is_terminal),
            ) == text,
        forall|layer: Layer, h: int, s: int, l: int|
            #[trigger] hsl_styled(
                layer,
                h,
                s,
                l,
                text,
                colorize_allowed(check_terminal, true, is_terminal),
            ) == text,
        forall|layer: Layer, code: Seq<char>|
            is_hex_color(code) ==> #[trigger] hex_styled(
                layer,
                code,
                text,
                colorize_allowed(check_terminal, true, is_terminal),
            ) == text,
{
}

/// Chained styles nest: the later style's sequence comes first, and each
/// style closes with a reset of its own.
pub proof fn chained_styles_nest(outer: Seq<char>, inner: Seq<char>, text: Seq<char>)
    ensures
        styled(outer, styled(inner, text, true), true) == sgr(outer) + sgr(inner) + text + reset()
            + reset(),
{
    assert(styled(outer, styled(inner, text, true), true) =~= sgr(outer) + sgr(inner) + text
        + reset() + reset());
}

/// An owned string and a string slice with the same characters are styled
/// alike.
pub proof fn owned_and_borrowed_agree(owned: &String, borrowed: &str)
    requires
        owned@ == borrowed@,
    ensures
        owned.text() == borrowed.text(),
        forall|params: Seq<char>, enabled: bool|
            #[trigger] styled(params, owned.text(), enabled) == styled(
                params,
                borrowed.text(),
                enabled,
            ),
{
}

} // verus!
