//! Escape sequences: SGR parameters, the wrap of a text, and truecolor.
use vstd::prelude::*;

verus! {

/// The escape character that opens every control sequence.
pub open spec fn esc() -> char {
    '\x1b'
}

/// The control sequence that selects the graphic rendition `params`.
pub open spec fn sgr(params: Seq<char>) -> Seq<char> {
    seq![esc(), '['] + params + seq!['m']
}

/// The sequence that resets every rendition.
pub open spec fn reset() -> Seq<char> {
    sgr(seq!['0'])
}

/// `text` between the sequence for `params` and a reset.
pub open spec fn wrap(params: Seq<char>, text: Seq<char>) -> Seq<char> {
    sgr(params) + text + reset()
}

/// `text` styled with `params` when styling is enabled, else unchanged.
pub open spec fn styled(params: Seq<char>, text: Seq<char>, enabled: bool) -> Seq<char> {
    if enabled {
        wrap(params, text)
    } else {
        text
    }
}

/// `text` between two resets, whatever the suppression policy decides.
pub open spec fn cleared(text: Seq<char>) -> Seq<char> {
    reset() + text + reset()
}

/// The decimal digit `d`.
pub open spec fn digit_char(d: nat) -> char {
    seq!['0', '1', '2', '3', '4', '5', '6', '7', '8', '9'][d as int]
}

/// `n` written in decimal, without leading zeros.
pub open spec fn decimal(n: nat) -> Seq<char>
    decreases n,
{
    if n < 10 {
        seq![digit_char(n)]
    } else {
        decimal(n / 10).push(digit_char(n % 10))
    }
}

/// Which layer a truecolor sequence colors.
#[derive(Clone, Copy, Debug, PartialEq, Eq, Structural)]
pub enum Layer {
    /// The text itself (parameter 38).
    Foreground,
    /// The cell behind the text (parameter 48).
    Background,
}

/// The first digit of a layer's truecolor parameter.
pub open spec fn layer_digit(layer: Layer) -> char {
    match layer {
        Layer::Foreground => '3',
        Layer::Background => '4',
    }
}

/// The SGR parameters `38;2;r;g;b` or `48;2;r;g;b`.
pub open spec fn truecolor_params(layer: Layer, r: u8, g: u8, b: u8) -> Seq<char> {
    seq![layer_digit(layer), '8', ';', '2', ';'] + decimal(r as nat) + seq![';'] + decimal(
        g as nat,
    ) + seq![';'] + decimal(b as nat)
}

/// Append the decimal digit `d` to `out`.
fn push_digit(out: &mut String, d: u8)
    requires
        d < 10,
    ensures
        final(out)@ == old(out)@.push(digit_char(d as nat)),
{
    let digits = "0123456789";
    proof {
        reveal_strlit("0123456789");
    }
    assert(digits.is_ascii());
    let one = digits.substring_ascii(d as usize, d as usize + 1);
    assert(one@ =~= seq![digit_char(d as nat)]);
    out.append(one);
}

/// Append `n` in decimal to `out`.
fn push_decimal(out: &mut String, n: u8)
    ensures
        final(out)@ == old(out)@ + decimal(n as nat),
{
    let ghost start = out@;
    proof {
        reveal_with_fuel(decimal, 3);
    }
    if n >= 100 {
        push_digit(out, n / 100);
        push_digit(out, (n / 10) % 10);
        push_digit(out, n % 10);
        assert(decimal(n as nat) =~= seq![
            digit_char((n / 100) as nat),
            digit_char(((n / 10) % 10) as nat),
            digit_char((n % 10) as nat),
        ]);
    } else if n >= 10 {
        push_digit(out, n / 10);
        push_digit(out, n % 10);
        assert(decimal(n as nat) =~= seq![digit_char((n / 10) as nat), digit_char((n % 10) as nat)]);
    } else {
        push_digit(out, n);
    }
    assert(out@ =~= start + decimal(n as nat));
}

/// `text` styled with the SGR parameters `params` when `enabled`, else a copy
/// of `text`.
pub fn paint(text: &str, params: &str, enabled: bool) -> (r: String)
    ensures
        r@ == styled(params@, text@, enabled),
{
    if !enabled {
        return String::from_str(text);
    }
    let mut out = String::from_str("\x1b[");
    proof {
        reveal_strlit("\x1b[");
        reveal_strlit("m");
        reveal_strlit("\x1b[0m");
    }
    out.append(params);
    out.append("m");
    out.append(text);
    out.append("\x1b[0m");
    assert(out@ =~= wrap(params@, text@));
    out
}

/// `text` between two resets.
pub fn clear_text(text: &str) -> (r: String)
    ensures
        r@ == cleared(text@),
{
    let mut out = String::from_str("\x1b[0m");
    proof {
        reveal_strlit("\x1b[0m");
    }
    out.append(text);
    out.append("\x1b[0m");
    assert(out@ =~= cleared(text@));
    out
}

/// `text` in the 24-bit color `(r, g, b)` on `layer` when `enabled`, else a
/// copy of `text`.
pub fn paint_truecolor(text: &str, layer: Layer, r: u8, g: u8, b: u8, enabled: bool) -> (res:
    String)
    ensures
        res@ == styled(truecolor_params(layer, r, g, b), text@, enabled),
{
    if !enabled {
        return String::from_str(text);
    }
    let mut out = String::from_str("\x1b[");
    proof {
        reveal_strlit("\x1b[");
        reveal_strlit("8;2;");
        reveal_strlit("3");
        reveal_strlit("4");
        reveal_strlit(";");
        reveal_strlit("m");
        reveal_strlit("\x1b[0m");
    }
    match layer {
        Layer::Foreground => out.append("3"),
        Layer::Background => out.append("4"),
    }
    out.append("8;2;");
    push_decimal(&mut out, r);
    out.append(";");
    push_decimal(&mut out, g);
    out.append(";");
    push_decimal(&mut out, b);
    out.append("m");
    out.append(text);
    out.append("\x1b[0m");
    assert(out@ =~= wrap(truecolor_params(layer, r, g, b), text@));
    out
}

} // verus!
