//! Terminal escape-code rendering of colors, for truecolor terminals.

use vstd::prelude::*;
use vstd::string::StringExecFns;
use crate::color::RGBColor;

verus! {

/// The decimal digit character for a value below 10.
pub open spec fn dec_digit(d: int) -> char {
    if d == 0 {
        '0'
    } else if d == 1 {
        '1'
    } else if d == 2 {
        '2'
    } else if d == 3 {
        '3'
    } else if d == 4 {
        '4'
    } else if d == 5 {
        '5'
    } else if d == 6 {
        '6'
    } else if d == 7 {
        '7'
    } else if d == 8 {
        '8'
    } else {
        '9'
    }
}

/// The decimal rendering of a nonnegative number: most significant digit
/// first, no padding, a single `0` for zero.
pub open spec fn dec_str(n: int) -> Seq<char>
    decreases n,
{
    if n < 10 {
        seq![dec_digit(n)]
    } else {
        dec_str(n / 10).push(dec_digit(n % 10))
    }
}

/// The two characters that begin every ANSI control sequence.
pub open spec fn csi_prefix() -> Seq<char> {
    seq!['\u{1b}', '[']
}

/// The ANSI sequence that sets the foreground to a truecolor RGB value:
/// `CSI 38;2;r;g;b m`, each channel in unpadded decimal.
pub open spec fn fg_escape(c: RGBColor) -> Seq<char> {
    csi_prefix() + seq!['3', '8', ';', '2', ';'] + dec_str(c.r as int) + seq![';'] + dec_str(
        c.g as int,
    ) + seq![';'] + dec_str(c.b as int) + seq!['m']
}

/// The ANSI sequence that sets the background to a truecolor RGB value:
/// `CSI 48;2;r;g;b m`, each channel in unpadded decimal.
pub open spec fn bg_escape(c: RGBColor) -> Seq<char> {
    csi_prefix() + seq!['4', '8', ';', '2', ';'] + dec_str(c.r as int) + seq![';'] + dec_str(
        c.g as int,
    ) + seq![';'] + dec_str(c.b as int) + seq!['m']
}

/// The ANSI sequence that resets the foreground to its default: `CSI 39 m`.
pub open spec fn fg_reset_escape() -> Seq<char> {
    csi_prefix() + seq!['3', '9', 'm']
}

/// The ANSI sequence that resets the background to its default: `CSI 49 m`.
pub open spec fn bg_reset_escape() -> Seq<char> {
    csi_prefix() + seq!['4', '9', 'm']
}

/// Relies on termion's `Rgb::fg_string`: the truecolor foreground sequence,
/// each channel rendered in unpadded decimal.
#[verifier::external_body]
fn termion_fg_string(c: RGBColor) -> (s: String)
    ensures
        s@ == fg_escape(c),
{
    termion::color::Rgb(c.r, c.g, c.b).fg_string()
}

/// Relies on termion's `Rgb::bg_string`: the truecolor background sequence,
/// each channel rendered in unpadded decimal.
#[verifier::external_body]
fn termion_bg_string(c: RGBColor) -> (s: String)
    ensures
        s@ == bg_escape(c),
{
    termion::color::Rgb(c.r, c.g, c.b).bg_string()
}

/// Relies on termion's `Reset::fg_str`: the foreground reset sequence.
#[verifier::external_body]
fn termion_fg_reset() -> (s: &'static str)
    ensures
        s@ == fg_reset_escape(),
{
    termion::color::Reset.fg_str()
}

/// Relies on termion's `Reset::bg_str`: the background reset sequence.
#[verifier::external_body]
fn termion_bg_reset() -> (s: &'static str)
    ensures
        s@ == bg_reset_escape(),
{
    termion::color::Reset.bg_str()
}

impl RGBColor {
    /// The colored-text rendering of a string: the text wrapped in a code
    /// that colors the foreground and one that resets it.
    pub open spec fn colored_str_spec(self, text: Seq<char>) -> Seq<char> {
        fg_escape(self) + text + fg_reset_escape()
    }

    /// The square rendering of this color: a full block character with
    /// both foreground and background set to the color, then both reset.
    pub open spec fn color_square_spec(self) -> Seq<char> {
        bg_escape(self) + fg_escape(self) + seq!['■'] + fg_reset_escape() + bg_reset_escape()
    }

    /// Wraps the given text in escape codes that color its foreground.
    /// Terminals without truecolor support will not render it faithfully.
    pub fn base_write_colored_str(&self, text: &str) -> (s: String)
        ensures
            s@ == self.colored_str_spec(text@),
    {
        let mut s = termion_fg_string(*self);
        s.append(text);
        s.append(termion_fg_reset());
        s
    }

    /// Returns a string which, printed in a truecolor-supporting terminal,
    /// shows a square of this color: foreground and background both set
    /// around a block character, then both reset.
    pub fn base_write_color(&self) -> (s: String)
        ensures
            s@ == self.color_square_spec(),
    {
        let mut s = termion_bg_string(*self);
        let fg = termion_fg_string(*self);
        s.append(fg.as_str());
        s.append("■");
        s.append(termion_fg_reset());
        s.append(termion_bg_reset());
        proof {
            reveal_strlit("■");
            assert(s@ =~= self.color_square_spec());
        }
        s
    }
}

} // verus!
