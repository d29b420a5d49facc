//! The RGB color type and its parsing, rendering and mixing operations.

use vstd::prelude::*;
use vstd::string::StrSliceExecFns;
use vstd::string::StringExecFns;

verus! {

/// An error from an invalid attempt to convert a string into an RGB color.
#[derive(Debug, Copy, Clone, Hash, PartialEq, Eq, Structural)]
pub enum RGBParseError {
    /// The function syntax was acceptable, but a number was out of range,
    /// as in the invalid string `"rgb(554, 23, 553)"`.
    OutOfRange,
    /// The hex string was malformed in some way.
    InvalidHexSyntax,
    /// A syntax error in a string that was supposed to be a valid rgb( function.
    InvalidFuncSyntax,
    /// An invalid color name was supplied to the `from_color_name()` function.
    InvalidX11Name,
}

/// An 8-bit-per-channel RGB color, gamma-encoded sRGB intensity in [0, 255].
/// Values are always in range by construction: the channel type cannot
/// exceed it.
#[derive(Debug, Copy, Clone, PartialEq, Eq, Structural)]
pub struct RGBColor {
    pub r: u8,
    pub g: u8,
    pub b: u8,
}

impl RGBColor {
    /// The floor midpoint of each channel, as RGB mixing computes it.
    pub open spec fn mix_spec(self, other: RGBColor) -> RGBColor {
        RGBColor {
            r: ((self.r + other.r) / 2) as u8,
            g: ((self.g + other.g) / 2) as u8,
            b: ((self.b + other.b) / 2) as u8,
        }
    }
}

/// True of the characters a hex color code may use.
pub open spec fn is_hex_digit(c: char) -> bool {
    ('0' <= c && c <= '9') || ('a' <= c && c <= 'f') || ('A' <= c && c <= 'F')
}

/// The numeric value of one hex digit, in either case.
pub open spec fn hex_digit_val(c: char) -> int {
    if '0' <= c && c <= '9' {
        c as int - '0' as int
    } else if 'a' <= c && c <= 'f' {
        c as int - 'a' as int + 10
    } else {
        c as int - 'A' as int + 10
    }
}

/// Tests whether a character is a hex digit.
fn hex_digit(c: char) -> (result: bool)
    ensures
        result == is_hex_digit(c),
{
    ('0' <= c && c <= '9') || ('a' <= c && c <= 'f') || ('A' <= c && c <= 'F')
}

/// The value of one hex digit character.
fn hex_val(c: char) -> (v: u8)
    requires
        is_hex_digit(c),
    ensures
        v == hex_digit_val(c),
        v < 16,
{
    if '0' <= c && c <= '9' {
        (c as u8) - ('0' as u8)
    } else if 'a' <= c && c <= 'f' {
        (c as u8) - ('a' as u8) + 10
    } else {
        (c as u8) - ('A' as u8) + 10
    }
}

/// The channel value encoded by a pair of hex digits.
pub open spec fn hex_pair_val(hi: char, lo: char) -> int {
    16 * hex_digit_val(hi) + hex_digit_val(lo)
}

/// A hex code's digits: the code's characters with one leading `#`, if
/// any, removed.
pub open spec fn strip_hash(s: Seq<char>) -> Seq<char> {
    if s.len() > 0 && s[0] == '#' {
        s.drop_first()
    } else {
        s
    }
}

/// What parsing a hex color code yields, over the code's characters: after
/// an optional leading `#`, either six hex digits (one pair per channel) or
/// three (a shorthand in which each digit stands for a doubled pair);
/// anything else is a hex syntax error.
pub open spec fn from_hex_spec(s: Seq<char>) -> Result<RGBColor, RGBParseError> {
    let t = strip_hash(s);
    if t.len() != 3 && t.len() != 6 {
        Err(RGBParseError::InvalidHexSyntax)
    } else if exists|i: int| 0 <= i < t.len() && !is_hex_digit(t[i]) {
        Err(RGBParseError::InvalidHexSyntax)
    } else if t.len() == 6 {
        Ok(RGBColor {
            r: hex_pair_val(t[0], t[1]) as u8,
            g: hex_pair_val(t[2], t[3]) as u8,
            b: hex_pair_val(t[4], t[5]) as u8,
        })
    } else {
        Ok(RGBColor {
            r: hex_pair_val(t[0], t[0]) as u8,
            g: hex_pair_val(t[1], t[1]) as u8,
            b: hex_pair_val(t[2], t[2]) as u8,
        })
    }
}

/// The uppercase hex digit for a value below 16.
pub open spec fn hex_upper_digit(d: int) -> char {
    if d == 0 {
        '0'
    } else if d == 1 {
        '1'
    } else if d == 2 {
        '2'
    } else if d == 3 {
        '3'
    } else if d == 4 {
        '4'
    } else if d == 5 {
        '5'
    } else if d == 6 {
        '6'
    } else if d == 7 {
        '7'
    } else if d == 8 {
        '8'
    } else if d == 9 {
        '9'
    } else if d == 10 {
        'A'
    } else if d == 11 {
        'B'
    } else if d == 12 {
        'C'
    } else if d == 13 {
        'D'
    } else if d == 14 {
        'E'
    } else {
        'F'
    }
}

/// The two uppercase hex digits encoding a channel value.
pub open spec fn hex_byte(n: u8) -> Seq<char> {
    seq![hex_upper_digit(n as int / 16), hex_upper_digit(n as int % 16)]
}

/// The one-character string holding the uppercase hex digit for `d`.
fn hex_digit_str(d: u8) -> (s: &'static str)
    requires
        d < 16,
    ensures
        s@ == seq![hex_upper_digit(d as int)],
{
    let s: &'static str = match d {
        0 => "0",
        1 => "1",
        2 => "2",
        3 => "3",
        4 => "4",
        5 => "5",
        6 => "6",
        7 => "7",
        8 => "8",
        9 => "9",
        10 => "A",
        11 => "B",
        12 => "C",
        13 => "D",
        14 => "E",
        _ => "F",
    };
    proof {
        reveal_strlit("0");
        reveal_strlit("1");
        reveal_strlit("2");
        reveal_strlit("3");
        reveal_strlit("4");
        reveal_strlit("5");
        reveal_strlit("6");
        reveal_strlit("7");
        reveal_strlit("8");
        reveal_strlit("9");
        reveal_strlit("A");
        reveal_strlit("B");
        reveal_strlit("C");
        reveal_strlit("D");
        reveal_strlit("E");
        reveal_strlit("F");
        assert(s@ =~= seq![hex_upper_digit(d as int)]);
    }
    s
}

impl RGBColor {
    /// The uppercase hex rendering `#RRGGBB` of this color.
    pub open spec fn hex_code(self) -> Seq<char> {
        seq!['#'] + hex_byte(self.r) + hex_byte(self.g) + hex_byte(self.b)
    }

    /// Renders this color as an uppercase hex code string such as `#F4B621`.
    pub fn to_string(&self) -> (s: String)
        ensures
            s@ == self.hex_code(),
    {
        let mut s = String::from_str("#");
        s.append(hex_digit_str(self.r / 16));
        s.append(hex_digit_str(self.r % 16));
        s.append(hex_digit_str(self.g / 16));
        s.append(hex_digit_str(self.g % 16));
        s.append(hex_digit_str(self.b / 16));
        s.append(hex_digit_str(self.b % 16));
        proof {
            reveal_strlit("#");
            assert(s@ =~= self.hex_code());
        }
        s
    }

    /// Parses a hex code string into the RGB color it represents. Four
    /// formats are accepted: `"#rgb"` as a shorthand for `"#rrggbb"`,
    /// `"#rrggbb"` itself, and either of those without the leading `#`.
    /// Any other string is reported as a hex syntax error.
    pub fn from_hex_code(hex: &str) -> (result: Result<RGBColor, RGBParseError>)
        ensures
            result == from_hex_spec(hex@),
    {
        let n = hex.unicode_len();
        let start: usize = if n > 0 && hex.get_char(0) == '#' {
            1
        } else {
            0
        };
        let len = n - start;
        proof {
            assert(strip_hash(hex@).len() == len);
        }
        if len != 3 && len != 6 {
            return Err(RGBParseError::InvalidHexSyntax);
        }
        let mut i = start;
        while i < n
            invariant
                start <= i <= n,
                start == 0 || start == 1,
                n == hex@.len(),
                start == 1 ==> n > 0 && hex@[0] == '#',
                start == 0 ==> !(n > 0 && hex@[0] == '#'),
                forall|j: int| start <= j < i ==> is_hex_digit(hex@[j]),
            decreases n - i,
        {
            if !hex_digit(hex.get_char(i)) {
                proof {
                    assert(strip_hash(hex@)[i - start] == hex@[i as int]);
                    assert(!is_hex_digit(strip_hash(hex@)[i - start]));
                }
                return Err(RGBParseError::InvalidHexSyntax);
            }
            i = i + 1;
        }
        proof {
            assert forall|k: int| 0 <= k < strip_hash(hex@).len() implies is_hex_digit(
                #[trigger] strip_hash(hex@)[k],
            ) by {
                assert(strip_hash(hex@)[k] == hex@[k + start]);
            }
        }
        if len == 6 {
            let r = 16 * hex_val(hex.get_char(start)) + hex_val(hex.get_char(start + 1));
            let g = 16 * hex_val(hex.get_char(start + 2)) + hex_val(hex.get_char(start + 3));
            let b = 16 * hex_val(hex.get_char(start + 4)) + hex_val(hex.get_char(start + 5));
            Ok(RGBColor { r, g, b })
        } else {
            let r = 17 * hex_val(hex.get_char(start));
            let g = 17 * hex_val(hex.get_char(start + 1));
            let b = 17 * hex_val(hex.get_char(start + 2));
            Ok(RGBColor { r, g, b })
        }
    }
}

/// Each uppercase hex digit parses back to the value it encodes.
proof fn lemma_hex_digit_round(d: int)
    requires
        0 <= d < 16,
    ensures
        is_hex_digit(hex_upper_digit(d)),
        hex_digit_val(hex_upper_digit(d)) == d,
{
}

/// Rendering a color as its hex code string and parsing that string back
/// recovers the color exactly.
pub proof fn lemma_hex_code_round_trip(c: RGBColor)
    ensures
        from_hex_spec(c.hex_code()) == Ok::<RGBColor, RGBParseError>(c),
{
    let s = c.hex_code();
    let t = strip_hash(s);
    assert(t =~= hex_byte(c.r) + hex_byte(c.g) + hex_byte(c.b));
    lemma_hex_digit_round(c.r as int / 16);
    lemma_hex_digit_round(c.r as int % 16);
    lemma_hex_digit_round(c.g as int / 16);
    lemma_hex_digit_round(c.g as int % 16);
    lemma_hex_digit_round(c.b as int / 16);
    lemma_hex_digit_round(c.b as int % 16);
    assert forall|k: int| 0 <= k < t.len() implies is_hex_digit(#[trigger] t[k]) by {
        assert(t[k] == (hex_byte(c.r) + hex_byte(c.g) + hex_byte(c.b))[k]);
    }
    assert(hex_pair_val(t[0], t[1]) == c.r);
    assert(hex_pair_val(t[2], t[3]) == c.g);
    assert(hex_pair_val(t[4], t[5]) == c.b);
}

/// The leading `#` is immaterial: a code whose digits do not themselves
/// begin with `#` parses the same with the prefix as without it.
pub proof fn lemma_hash_prefix_immaterial(s: Seq<char>)
    requires
        s.len() == 0 || s[0] != '#',
    ensures
        from_hex_spec(seq!['#'] + s) == from_hex_spec(s),
{
    assert(strip_hash(seq!['#'] + s) =~= s);
    assert(strip_hash(s) =~= s);
}

impl From<(u8, u8, u8)> for RGBColor {
    /// Builds the color whose channels are the tuple's components, in order.
    fn from(rgb: (u8, u8, u8)) -> (result: RGBColor)
        ensures
            result == (RGBColor { r: rgb.0, g: rgb.1, b: rgb.2 }),
    {
        RGBColor { r: rgb.0, g: rgb.1, b: rgb.2 }
    }
}

impl vstd::std_specs::convert::FromSpecImpl<(u8, u8, u8)> for RGBColor {
    open spec fn obeys_from_spec() -> bool {
        true
    }

    open spec fn from_spec(v: (u8, u8, u8)) -> RGBColor {
        RGBColor { r: v.0, g: v.1, b: v.2 }
    }
}

impl From<RGBColor> for (u8, u8, u8) {
    /// Unpacks the color into its channel triple, in order.
    fn from(c: RGBColor) -> (result: (u8, u8, u8))
        ensures
            result == (c.r, c.g, c.b),
    {
        (c.r, c.g, c.b)
    }
}

impl vstd::std_specs::convert::FromSpecImpl<RGBColor> for (u8, u8, u8) {
    open spec fn obeys_from_spec() -> bool {
        true
    }

    open spec fn from_spec(v: RGBColor) -> (u8, u8, u8) {
        (v.r, v.g, v.b)
    }
}

/// Describes a color that can be mixed with other colors of the same
/// representation. Mixing takes the midpoint of the two colors in the
/// representation's own projection; mixing across representations is
/// disallowed at the type level, because the midpoint in one projection
/// generally does not correspond to the midpoint in another.
pub trait Mix {
    /// Given two colors, returns a color representing their midpoint.
    fn mix(self, other: Self) -> Self;
}

impl Mix for RGBColor {
    /// Averages each channel in widened integer arithmetic, rounding down.
    /// This is gamma-encoded (integer) averaging, a documented approximation:
    /// it does not linearize before averaging.
    fn mix(self, other: RGBColor) -> (result: RGBColor)
        ensures
            result == self.mix_spec(other),
    {
        let r: u16 = (self.r as u16 + other.r as u16) / 2;
        let g: u16 = (self.g as u16 + other.g as u16) / 2;
        let b: u16 = (self.b as u16 + other.b as u16) / 2;
        RGBColor { r: r as u8, g: g as u8, b: b as u8 }
    }
}

/// Mixing two RGB colors is commutative: both orders give the same color.
pub proof fn lemma_rgb_mix_commutes(a: RGBColor, b: RGBColor)
    ensures
        a.mix_spec(b) == b.mix_spec(a),
{
}

} // verus!
