//! The styling operations, on any text.
use vstd::prelude::*;

use crate::hex::{hex_to_rgb, parse_hex_color};
use crate::hsl::{hsl_rgb, hsl_to_rgb};
use crate::sgr::{
    clear_text, cleared, paint, paint_truecolor, styled, truecolor_params, Layer,
};

verus! {

/// `text` in the color of the hex code `code` on `layer`, when styling is
/// enabled; `text` between two resets, whatever `enabled` says, when `code`
/// is no hex color.
pub open spec fn hex_styled(layer: Layer, code: Seq<char>, text: Seq<char>, enabled: bool) -> Seq<
    char,
> {
    match parse_hex_color(code) {
        Some((r, g, b)) => styled(truecolor_params(layer, r, g, b), text, enabled),
        None => cleared(text),
    }
}

/// `text` in the color of hue `h`, saturation `s` and lightness `l` on
/// `layer`, when styling is enabled.
pub open spec fn hsl_styled(layer: Layer, h: int, s: int, l: int, text: Seq<char>, enabled: bool) -> Seq<
    char,
> {
    let (r, g, b) = hsl_rgb(h, s, l);
    styled(truecolor_params(layer, r, g, b), text, enabled)
}

/// Color and style methods on text.
///
/// Each method returns a new string and leaves `self` as it is. Every method
/// but `clear` takes `enabled`, the decision of the suppression policy
/// (see `ColorizeConfig::should_colorize`): where it is `false` the text comes
/// back unchanged. Styles chain: each call wraps the string that the previous
/// one returned, escape sequences and all.
pub trait Colorize {
    /// The text that is styled.
    spec fn text(&self) -> Seq<char>;

    /// The text that is styled, as a string slice.
    fn as_text(&self) -> (r: &str)
        ensures
            r@ == self.text(),
    ;

    /// Style with the SGR parameters `color_code` (`"31"`, `"1;4"`, ...).
    fn colorize(&self, color_code: &str, enabled: bool) -> (r: String)
        ensures
            r@ == styled(color_code@, self.text(), enabled),
    {
        paint(self.as_text(), color_code, enabled)
    }

    // Basic colors
    /// Style with SGR code 31.
    fn red(&self, enabled: bool) -> (r: String)
        ensures
            r@ == styled(seq!['3', '1'], self.text(), enabled),
    {
        proof {
            reveal_strlit("31");
        }
        self.colorize("31", enabled)
    }

    /// Style with SGR code 32.
    fn green(&self, enabled: bool) -> (r: String)
        ensures
            r@ == styled(seq!['3', '2'], self.text(), enabled),
    {
        proof {
            reveal_strlit("32");
        }
        self.colorize("32", enabled)
    }

    /// Style with SGR code 33.
    fn yellow(&self, enabled: bool) -> (r: String)
        ensures
            r@ == styled(seq!['3', '3'], self.text(), enabled),
    {
        proof {
            reveal_strlit("33");
        }
        self.colorize("33", enabled)
    }

    /// Style with SGR code 34.
    fn blue(&self, enabled: bool) -> (r: String)
        ensures
            r@ == styled(seq!['3', '4'], self.text(), enabled),
    {
        proof {
            reveal_strlit("34");
        }
        self.colorize("34", enabled)
    }

    /// Style with SGR code 35.
    fn magenta(&self, enabled: bool) -> (r: String)
        ensures
            r@ == styled(seq!['3', '5'], self.text(), enabled),
    {
        proof {
            reveal_strlit("35");
        }
        self.colorize("35", enabled)
    }

    /// Style with SGR code 36.
    fn cyan(&self, enabled: bool) -> (r: String)
        ensures
            r@ == styled(seq!['3', '6'], self.text(), enabled),
    {
        proof {
            reveal_strlit("36");
        }
        self.colorize("36", enabled)
    }

    /// Style with SGR code 37.
    fn white(&self, enabled: bool) -> (r: String)
        ensures
            r@ == styled(seq!['3', '7'], self.text(), enabled),
    {
        proof {
            reveal_strlit("37");
        }
        self.colorize("37", enabled)
    }

    /// Style with SGR code 30.
    fn black(&self, enabled: bool) -> (r: String)
        ensures
            r@ == styled(seq!['3', '0'], self.text(), enabled),
    {
        proof {
            reveal_strlit("30");
        }
        self.colorize("30", enabled)
    }

    // Bright colors
    /// Style with SGR code 91.
    fn bright_red(&self, enabled: bool) -> (r: String)
        ensures
            r@ == styled(seq!['9', '1'], self.text(), enabled),
    {
        proof {
            reveal_strlit("91");
        }
        self.colorize("91", enabled)
    }

    /// Style with SGR code 92.
    fn bright_green(&self, enabled: bool) -> (r: String)
        ensures
            r@ == styled(seq!['9', '2'], self.text(), enabled),
    {
        proof {
            reveal_strlit("92");
        }
        self.colorize("92", enabled)
    }

    /// Style with SGR code 93.
    fn bright_yellow(&self, enabled: bool) -> (r: String)
        ensures
            r@ == styled(seq!['9', '3'], self.text(), enabled),
    {
        proof {
            reveal_strlit("93");
        }
        self.colorize("93", enabled)
    }

    /// Style with SGR code 94.
    fn bright_blue(&self, enabled: bool) -> (r: String)
        ensures
            r@ == styled(seq!['9', '4'], self.text(), enabled),
    {
        proof {
            reveal_strlit("94");
        }
        self.colorize("94", enabled)
    }

    /// Style with SGR code 95.
    fn bright_magenta(&self, enabled: bool) -> (r: String)
        ensures
            r@ == styled(seq!['9', '5'], self.text(), enabled),
    {
        proof {
            reveal_strlit("95");
        }
        self.colorize("95", enabled)
    }

    /// Style with SGR code 96.
    fn bright_cyan(&self, enabled: bool) -> (r: String)
        ensures
            r@ == styled(seq!['9', '6'], self.text(), enabled),
    {
        proof {
            reveal_strlit("96");
        }
        self.colorize("96", enabled)
    }

    /// Style with SGR code 97.
    fn bright_white(&self, enabled: bool) -> (r: String)
        ensures
            r@ == styled(seq!['9', '7'], self.text(), enabled),
    {
        proof {
            reveal_strlit("97");
        }
        self.colorize("97", enabled)
    }

    // Styles
    /// Style with SGR code 1.
    fn bold(&self, enabled: bool) -> (r: String)
        ensures
            r@ == styled(seq!['1'], self.text(), enabled),
    {
        proof {
            reveal_strlit("1");
        }
        self.colorize("1", enabled)
    }

    /// Style with SGR code 2.
    fn dim(&self, enabled: bool) -> (r: String)
        ensures
            r@ == styled(seq!['2'], self.text(), enabled),
    {
        proof {
            reveal_strlit("2");
        }
        self.colorize("2", enabled)
    }

    /// Style with SGR code 3.
    fn italic(&self, enabled: bool) -> (r: String)
        ensures
            r@ == styled(seq!['3'], self.text(), enabled),
    {
        proof {
            reveal_strlit("3");
        }
        self.colorize("3", enabled)
    }

    /// Style with SGR code 4.
    fn underline(&self, enabled: bool) -> (r: String)
        ensures
            r@ == styled(seq!['4'], self.text(), enabled),
    {
        proof {
            reveal_strlit("4");
        }
        self.colorize("4", enabled)
    }

    /// Style with SGR code 7.
    fn inverse(&self, enabled: bool) -> (r: String)
        ensures
            r@ == styled(seq!['7'], self.text(), enabled),
    {
        proof {
            reveal_strlit("7");
        }
        self.colorize("7", enabled)
    }

    /// Style with SGR code 9.
    fn strikethrough(&self, enabled: bool) -> (r: String)
        ensures
            r@ == styled(seq!['9'], self.text(), enabled),
    {
        proof {
            reveal_strlit("9");
        }
        self.colorize("9", enabled)
    }

    // Background colors
    /// Style with SGR code 41.
    fn on_red(&self, enabled: bool) -> (r: String)
        ensures
            r@ == styled(seq!['4', '1'], self.text(), enabled),
    {
        proof {
            reveal_strlit("41");
        }
        self.colorize("41", enabled)
    }

    /// Style with SGR code 42.
    fn on_green(&self, enabled: bool) -> (r: String)
        ensures
            r@ == styled(seq!['4', '2'], self.text(), enabled),
    {
        proof {
            reveal_strlit("42");
        }
        self.colorize("42", enabled)
    }

    /// Style with SGR code 43.
    fn on_yellow(&self, enabled: bool) -> (r: String)
        ensures
            r@ == styled(seq!['4', '3'], self.text(), enabled),
    {
        proof {
            reveal_strlit("43");
        }
        self.colorize("43", enabled)
    }

    /// Style with SGR code 44.
    fn on_blue(&self, enabled: bool) -> (r: String)
        ensures
            r@ == styled(seq!['4', '4'], self.text(), enabled),
    {
        proof {
            reveal_strlit("44");
        }
        self.colorize("44", enabled)
    }

    /// Style with SGR code 45.
    fn on_magenta(&self, enabled: bool) -> (r: String)
        ensures
            r@ == styled(seq!['4', '5'], self.text(), enabled),
    {
        proof {
            reveal_strlit("45");
        }
        self.colorize("45", enabled)
    }

    /// Style with SGR code 46.
    fn on_cyan(&self, enabled: bool) -> (r: String)
        ensures
            r@ == styled(seq!['4', '6'], self.text(), enabled),
    {
        proof {
            reveal_strlit("46");
        }
        self.colorize("46", enabled)
    }

    /// Style with SGR code 47.
    fn on_white(&self, enabled: bool) -> (r: String)
        ensures
            r@ == styled(seq!['4', '7'], self.text(), enabled),
    {
        proof {
            reveal_strlit("47");
        }
        self.colorize("47", enabled)
    }

    /// Style with SGR code 40.
    fn on_black(&self, enabled: bool) -> (r: String)
        ensures
            r@ == styled(seq!['4', '0'], self.text(), enabled),
    {
        proof {
            reveal_strlit("40");
        }
        self.colorize("40", enabled)
    }

    // RGB, HSL, and hex colors
    /// Set the text color to `(r, g, b)`.
    fn rgb(&self, r: u8, g: u8, b: u8, enabled: bool) -> (res: String)
        ensures
            res@ == styled(truecolor_params(Layer::Foreground, r, g, b), self.text(), enabled),
    {
        paint_truecolor(self.as_text(), Layer::Foreground, r, g, b, enabled)
    }

    /// Set the background color to `(r, g, b)`.
    fn on_rgb(&self, r: u8, g: u8, b: u8, enabled: bool) -> (res: String)
        ensures
            res@ == styled(truecolor_params(Layer::Background, r, g, b), self.text(), enabled),
    {
        paint_truecolor(self.as_text(), Layer::Background, r, g, b, enabled)
    }

    /// Set the text color to hue `h` (degrees), saturation `s` and lightness
    /// `l` (percent).
    fn hsl(&self, h: i32, s: i32, l: i32, enabled: bool) -> (res: String)
        ensures
            res@ == hsl_styled(Layer::Foreground, h as int, s as int, l as int, self.text(), enabled),
    {
        let (r, g, b) = hsl_to_rgb(h, s, l);
        self.rgb(r, g, b, enabled)
    }

    /// Set the background color to hue `h` (degrees), saturation `s` and
    /// lightness `l` (percent).
    fn on_hsl(&self, h: i32, s: i32, l: i32, enabled: bool) -> (res: String)
        ensures
            res@ == hsl_styled(Layer::Background, h as int, s as int, l as int, self.text(), enabled),
    {
        let (r, g, b) = hsl_to_rgb(h, s, l);
        self.on_rgb(r, g, b, enabled)
    }

    /// Set the text color to the hex code `hex` (`"#ff8000"` or `"ff8000"`).
    /// An invalid code gives the text between two resets, as `clear` does,
    /// even where styling is disabled.
    fn hex(&self, hex: &str, enabled: bool) -> (res: String)
        ensures
            res@ == hex_styled(Layer::Foreground, hex@, self.text(), enabled),
    {
        match hex_to_rgb(hex) {
            Some((r, g, b)) => self.rgb(r, g, b, enabled),
            None => self.clear(),
        }
    }

    /// Set the background color to the hex code `hex`. An invalid code gives
    /// the text between two resets, as `clear` does, even where styling is
    /// disabled.
    fn on_hex(&self, hex: &str, enabled: bool) -> (res: String)
        ensures
            res@ == hex_styled(Layer::Background, hex@, self.text(), enabled),
    {
        match hex_to_rgb(hex) {
            Some((r, g, b)) => self.on_rgb(r, g, b, enabled),
            None => self.clear(),
        }
    }

    /// The text between two resets, whether styling is enabled or not.
    fn clear(&self) -> (r: String)
        ensures
            r@ == cleared(self.text()),
    {
        clear_text(self.as_text())
    }
}

impl Colorize for str {
    open spec fn text(&self) -> Seq<char> {
        self@
    }

    fn as_text(&self) -> (r: &str) {
        self
    }
}

impl Colorize for String {
    open spec fn text(&self) -> Seq<char> {
        self@
    }

    fn as_text(&self) -> (r: &str) {
        self.as_str()
    }
}

} // verus!
