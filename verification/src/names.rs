//! The X11 color-name table: parsing a color from its standard name.

use vstd::prelude::*;
use vstd::string::StrSliceExecFns;
use crate::color::RGBColor;
use crate::color::RGBParseError;
use crate::color::from_hex_spec;

verus! {

/// The lowercase form of a string, written as a name because the full
/// Unicode lowering rules are not restated here.
pub uninterp spec fn lower_of(s: Seq<char>) -> Seq<char>;

/// Relies on str::to_lowercase: the lowercase form of a string depends on
/// its characters alone.
#[verifier::external_body]
fn lowercase(s: &str) -> (r: String)
    ensures
        r@ == lower_of(s@),
{
    s.to_lowercase()
}

/// Compares two strings character by character.
fn str_eq(a: &str, b: &str) -> (r: bool)
    ensures
        r == (a@ == b@),
{
    let n = a.unicode_len();
    if n != b.unicode_len() {
        return false;
    }
    let mut i: usize = 0;
    while i < n
        invariant
            i <= n,
            n == a@.len(),
            n == b@.len(),
            forall|j: int| 0 <= j < i ==> a@[j] == b@[j],
        decreases n - i,
    {
        if a.get_char(i) != b.get_char(i) {
            return false;
        }
        i = i + 1;
    }
    proof {
        assert(a@ =~= b@);
    }
    true
}

/// The table entries from `aliceblue` to `cyan`.
pub open spec fn name_code_a_to_c(s: Seq<char>) -> Option<Seq<char>> {
    if s == "aliceblue"@ {
        Some("#f0f8ff"@)
    } else if s == "antiquewhite"@ {
        Some("#faebd7"@)
    } else if s == "aqua"@ {
        Some("#00ffff"@)
    } else if s == "aquamarine"@ {
        Some("#7fffd4"@)
    } else if s == "azure"@ {
        Some("#f0ffff"@)
    } else if s == "beige"@ {
        Some("#f5f5dc"@)
    } else if s == "bisque"@ {
        Some("#ffe4c4"@)
    } else if s == "black"@ {
        Some("#000000"@)
    } else if s == "blanchedalmond"@ {
        Some("#ffebcd"@)
    } else if s == "blue"@ {
        Some("#0000ff"@)
    } else if s == "blueviolet"@ {
        Some("#8a2be2"@)
    } else if s == "brown"@ {
        Some("#a52a2a"@)
    } else if s == "burlywood"@ {
        Some("#deb887"@)
    } else if s == "cadetblue"@ {
        Some("#5f9ea0"@)
    } else if s == "chartreuse"@ {
        Some("#7fff00"@)
    } else if s == "chocolate"@ {
        Some("#d2691e"@)
    } else if s == "coral"@ {
        Some("#ff7f50"@)
    } else if s == "cornflowerblue"@ {
        Some("#6495ed"@)
    } else if s == "cornsilk"@ {
        Some("#fff8dc"@)
    } else if s == "crimson"@ {
        Some("#dc143c"@)
    } else if s == "cyan"@ {
        Some("#00ffff"@)
    } else {
        None
    }
}

/// Looks a lowercase name up among the entries from `aliceblue` to `cyan`.
fn lookup_a_to_c(s: &str) -> (r: Option<&'static str>)
    ensures
        r matches Some(code) ==> name_code_a_to_c(s@) == Some(code@),
        r is None ==> name_code_a_to_c(s@) is None,
{
    if str_eq(s, "aliceblue") {
        Some("#f0f8ff")
    } else if str_eq(s, "antiquewhite") {
        Some("#faebd7")
    } else if str_eq(s, "aqua") {
        Some("#00ffff")
    } else if str_eq(s, "aquamarine") {
        Some("#7fffd4")
    } else if str_eq(s, "azure") {
        Some("#f0ffff")
    } else if str_eq(s, "beige") {
        Some("#f5f5dc")
    } else if str_eq(s, "bisque") {
        Some("#ffe4c4")
    } else if str_eq(s, "black") {
        Some("#000000")
    } else if str_eq(s, "blanchedalmond") {
        Some("#ffebcd")
    } else if str_eq(s, "blue") {
        Some("#0000ff")
    } else if str_eq(s, "blueviolet") {
        Some("#8a2be2")
    } else if str_eq(s, "brown") {
        Some("#a52a2a")
    } else if str_eq(s, "burlywood") {
        Some("#deb887")
    } else if str_eq(s, "cadetblue") {
        Some("#5f9ea0")
    } else if str_eq(s, "chartreuse") {
        Some("#7fff00")
    } else if str_eq(s, "chocolate") {
        Some("#d2691e")
    } else if str_eq(s, "coral") {
        Some("#ff7f50")
    } else if str_eq(s, "cornflowerblue") {
        Some("#6495ed")
    } else if str_eq(s, "cornsilk") {
        Some("#fff8dc")
    } else if str_eq(s, "crimson") {
        Some("#dc143c")
    } else if str_eq(s, "cyan") {
        Some("#00ffff")
    } else {
        None
    }
}

/// The table entries from `darkblue` to `dodgerblue`.
pub open spec fn name_code_d(s: Seq<char>) -> Option<Seq<char>> {
    if s == "darkblue"@ {
        Some("#00008b"@)
    } else if s == "darkcyan"@ {
        Some("#008b8b"@)
    } else if s == "darkgoldenrod"@ {
        Some("#b8860b"@)
    } else if s == "darkgray"@ {
        Some("#a9a9a9"@)
    } else if s == "darkgreen"@ {
        Some("#006400"@)
    } else if s == "darkgrey"@ {
        Some("#a9a9a9"@)
    } else if s == "darkkhaki"@ {
        Some("#bdb76b"@)
    } else if s == "darkmagenta"@ {
        Some("#8b008b"@)
    } else if s == "darkolivegreen"@ {
        Some("#556b2f"@)
    } else if s == "darkorange"@ {
        Some("#ff8c00"@)
    } else if s == "darkorchid"@ {
        Some("#9932cc"@)
    } else if s == "darkred"@ {
        Some("#8b0000"@)
    } else if s == "darksalmon"@ {
        Some("#e9967a"@)
    } else if s == "darkseagreen"@ {
        Some("#8fbc8f"@)
    } else if s == "darkslateblue"@ {
        Some("#483d8b"@)
    } else if s == "darkslategray"@ {
        Some("#2f4f4f"@)
    } else if s == "darkslategrey"@ {
        Some("#2f4f4f"@)
    } else if s == "darkturquoise"@ {
        Some("#00ced1"@)
    } else if s == "darkviolet"@ {
        Some("#9400d3"@)
    } else if s == "deeppink"@ {
        Some("#ff1493"@)
    } else if s == "deepskyblue"@ {
        Some("#00bfff"@)
    } else if s == "dimgray"@ {
        Some("#696969"@)
    } else if s == "dimgrey"@ {
        Some("#696969"@)
    } else if s == "dodgerblue"@ {
        Some("#1e90ff"@)
    } else {
        None
    }
}

/// Looks a lowercase name up among the entries from `darkblue` to `dodgerblue`.
fn lookup_d(s: &str) -> (r: Option<&'static str>)
    ensures
        r matches Some(code) ==> name_code_d(s@) == Some(code@),
        r is None ==> name_code_d(s@) is None,
{
    if str_eq(s, "darkblue") {
        Some("#00008b")
    } else if str_eq(s, "darkcyan") {
        Some("#008b8b")
    } else if str_eq(s, "darkgoldenrod") {
        Some("#b8860b")
    } else if str_eq(s, "darkgray") {
        Some("#a9a9a9")
    } else if str_eq(s, "darkgreen") {
        Some("#006400")
    } else if str_eq(s, "darkgrey") {
        Some("#a9a9a9")
    } else if str_eq(s, "darkkhaki") {
        Some("#bdb76b")
    } else if str_eq(s, "darkmagenta") {
        Some("#8b008b")
    } else if str_eq(s, "darkolivegreen") {
        Some("#556b2f")
    } else if str_eq(s, "darkorange") {
        Some("#ff8c00")
    } else if str_eq(s, "darkorchid") {
        Some("#9932cc")
    } else if str_eq(s, "darkred") {
        Some("#8b0000")
    } else if str_eq(s, "darksalmon") {
        Some("#e9967a")
    } else if str_eq(s, "darkseagreen") {
        Some("#8fbc8f")
    } else if str_eq(s, "darkslateblue") {
        Some("#483d8b")
    } else if str_eq(s, "darkslategray") {
        Some("#2f4f4f")
    } else if str_eq(s, "darkslategrey") {
        Some("#2f4f4f")
    } else if str_eq(s, "darkturquoise") {
        Some("#00ced1")
    } else if str_eq(s, "darkviolet") {
        Some("#9400d3")
    } else if str_eq(s, "deeppink") {
        Some("#ff1493")
    } else if str_eq(s, "deepskyblue") {
        Some("#00bfff")
    } else if str_eq(s, "dimgray") {
        Some("#696969")
    } else if str_eq(s, "dimgrey") {
        Some("#696969")
    } else if str_eq(s, "dodgerblue") {
        Some("#1e90ff")
    } else {
        None
    }
}

/// The table entries from `firebrick` to `hotpink`.
pub open spec fn name_code_f_to_h(s: Seq<char>) -> Option<Seq<char>> {
    if s == "firebrick"@ {
        Some("#b22222"@)
    } else if s == "floralwhite"@ {
        Some("#fffaf0"@)
    } else if s == "forestgreen"@ {
        Some("#228b22"@)
    } else if s == "fuchsia"@ {
        Some("#ff00ff"@)
    } else if s == "gainsboro"@ {
        Some("#dcdcdc"@)
    } else if s == "ghostwhite"@ {
        Some("#f8f8ff"@)
    } else if s == "gold"@ {
        Some("#ffd700"@)
    } else if s == "goldenrod"@ {
        Some("#daa520"@)
    } else if s == "gray"@ {
        Some("#808080"@)
    } else if s == "green"@ {
        Some("#008000"@)
    } else if s == "greenyellow"@ {
        Some("#adff2f"@)
    } else if s == "grey"@ {
        Some("#808080"@)
    } else if s == "honeydew"@ {
        Some("#f0fff0"@)
    } else if s == "hotpink"@ {
        Some("#ff69b4"@)
    } else {
        None
    }
}

/// Looks a lowercase name up among the entries from `firebrick` to `hotpink`.
fn lookup_f_to_h(s: &str) -> (r: Option<&'static str>)
    ensures
        r matches Some(code) ==> name_code_f_to_h(s@) == Some(code@),
        r is None ==> name_code_f_to_h(s@) is None,
{
    if str_eq(s, "firebrick") {
        Some("#b22222")
    } else if str_eq(s, "floralwhite") {
        Some("#fffaf0")
    } else if str_eq(s, "forestgreen") {
        Some("#228b22")
    } else if str_eq(s, "fuchsia") {
        Some("#ff00ff")
    } else if str_eq(s, "gainsboro") {
        Some("#dcdcdc")
    } else if str_eq(s, "ghostwhite") {
        Some("#f8f8ff")
    } else if str_eq(s, "gold") {
        Some("#ffd700")
    } else if str_eq(s, "goldenrod") {
        Some("#daa520")
    } else if str_eq(s, "gray") {
        Some("#808080")
    } else if str_eq(s, "green") {
        Some("#008000")
    } else if str_eq(s, "greenyellow") {
        Some("#adff2f")
    } else if str_eq(s, "grey") {
        Some("#808080")
    } else if str_eq(s, "honeydew") {
        Some("#f0fff0")
    } else if str_eq(s, "hotpink") {
        Some("#ff69b4")
    } else {
        None
    }
}

/// The table entries from `indianred` to `linen`.
pub open spec fn name_code_i_to_l(s: Seq<char>) -> Option<Seq<char>> {
    if s == "indianred"@ {
        Some("#cd5c5c"@)
    } else if s == "indigo"@ {
        Some("#4b0082"@)
    } else if s == "ivory"@ {
        Some("#fffff0"@)
    } else if s == "khaki"@ {
        Some("#f0e68c"@)
    } else if s == "lavender"@ {
        Some("#e6e6fa"@)
    } else if s == "lavenderblush"@ {
        Some("#fff0f5"@)
    } else if s == "lawngreen"@ {
        Some("#7cfc00"@)
    } else if s == "lemonchiffon"@ {
        Some("#fffacd"@)
    } else if s == "lightblue"@ {
        Some("#add8e6"@)
    } else if s == "lightcoral"@ {
        Some("#f08080"@)
    } else if s == "lightcyan"@ {
        Some("#e0ffff"@)
    } else if s == "lightgoldenrodyellow"@ {
        Some("#fafad2"@)
    } else if s == "lightgray"@ {
        Some("#d3d3d3"@)
    } else if s == "lightgreen"@ {
        Some("#90ee90"@)
    } else if s == "lightgrey"@ {
        Some("#d3d3d3"@)
    } else if s == "lightpink"@ {
        Some("#ffb6c1"@)
    } else if s == "lightsalmon"@ {
        Some("#ffa07a"@)
    } else if s == "lightseagreen"@ {
        Some("#20b2aa"@)
    } else if s == "lightskyblue"@ {
        Some("#87cefa"@)
    } else if s == "lightslategray"@ {
        Some("#778899"@)
    } else if s == "lightslategrey"@ {
        Some("#778899"@)
    } else if s == "lightsteelblue"@ {
        Some("#b0c4de"@)
    } else if s == "lightyellow"@ {
        Some("#ffffe0"@)
    } else if s == "lime"@ {
        Some("#00ff00"@)
    } else if s == "limegreen"@ {
        Some("#32cd32"@)
    } else if s == "linen"@ {
        Some("#faf0e6"@)
    } else {
        None
    }
}

/// Looks a lowercase name up among the entries from `indianred` to `linen`.
fn lookup_i_to_l(s: &str) -> (r: Option<&'static str>)
    ensures
        r matches Some(code) ==> name_code_i_to_l(s@) == Some(code@),
        r is None ==> name_code_i_to_l(s@) is None,
{
    if str_eq(s, "indianred") {
        Some("#cd5c5c")
    } else if str_eq(s, "indigo") {
        Some("#4b0082")
    } else if str_eq(s, "ivory") {
        Some("#fffff0")
    } else if str_eq(s, "khaki") {
        Some("#f0e68c")
    } else if str_eq(s, "lavender") {
        Some("#e6e6fa")
    } else if str_eq(s, "lavenderblush") {
        Some("#fff0f5")
    } else if str_eq(s, "lawngreen") {
        Some("#7cfc00")
    } else if str_eq(s, "lemonchiffon") {
        Some("#fffacd")
    } else if str_eq(s, "lightblue") {
        Some("#add8e6")
    } else if str_eq(s, "lightcoral") {
        Some("#f08080")
    } else if str_eq(s, "lightcyan") {
        Some("#e0ffff")
    } else if str_eq(s, "lightgoldenrodyellow") {
        Some("#fafad2")
    } else if str_eq(s, "lightgray") {
        Some("#d3d3d3")
    } else if str_eq(s, "lightgreen") {
        Some("#90ee90")
    } else if str_eq(s, "lightgrey") {
        Some("#d3d3d3")
    } else if str_eq(s, "lightpink") {
        Some("#ffb6c1")
    } else if str_eq(s, "lightsalmon") {
        Some("#ffa07a")
    } else if str_eq(s, "lightseagreen") {
        Some("#20b2aa")
    } else if str_eq(s, "lightskyblue") {
        Some("#87cefa")
    } else if str_eq(s, "lightslategray") {
        Some("#778899")
    } else if str_eq(s, "lightslategrey") {
        Some("#778899")
    } else if str_eq(s, "lightsteelblue") {
        Some("#b0c4de")
    } else if str_eq(s, "lightyellow") {
        Some("#ffffe0")
    } else if str_eq(s, "lime") {
        Some("#00ff00")
    } else if str_eq(s, "limegreen") {
        Some("#32cd32")
    } else if str_eq(s, "linen") {
        Some("#faf0e6")
    } else {
        None
    }
}

/// The table entries from `magenta` to `moccasin`.
pub open spec fn name_code_m(s: Seq<char>) -> Option<Seq<char>> {
    if s == "magenta"@ {
        Some("#ff00ff"@)
    } else if s == "maroon"@ {
        Some("#800000"@)
    } else if s == "mediumaquamarine"@ {
        Some("#66cdaa"@)
    } else if s == "mediumblue"@ {
        Some("#0000cd"@)
    } else if s == "mediumorchid"@ {
        Some("#ba55d3"@)
    } else if s == "mediumpurple"@ {
        Some("#9370db"@)
    } else if s == "mediumseagreen"@ {
        Some("#3cb371"@)
    } else if s == "mediumslateblue"@ {
        Some("#7b68ee"@)
    } else if s == "mediumspringgreen"@ {
        Some("#00fa9a"@)
    } else if s == "mediumturquoise"@ {
        Some("#48d1cc"@)
    } else if s == "mediumvioletred"@ {
        Some("#c71585"@)
    } else if s == "midnightblue"@ {
        Some("#191970"@)
    } else if s == "mintcream"@ {
        Some("#f5fffa"@)
    } else if s == "mistyrose"@ {
        Some("#ffe4e1"@)
    } else if s == "moccasin"@ {
        Some("#ffe4b5"@)
    } else {
        None
    }
}

/// Looks a lowercase name up among the entries from `magenta` to `moccasin`.
fn lookup_m(s: &str) -> (r: Option<&'static str>)
    ensures
        r matches Some(code) ==> name_code_m(s@) == Some(code@),
        r is None ==> name_code_m(s@) is None,
{
    if str_eq(s, "magenta") {
        Some("#ff00ff")
    } else if str_eq(s, "maroon") {
        Some("#800000")
    } else if str_eq(s, "mediumaquamarine") {
        Some("#66cdaa")
    } else if str_eq(s, "mediumblue") {
        Some("#0000cd")
    } else if str_eq(s, "mediumorchid") {
        Some("#ba55d3")
    } else if str_eq(s, "mediumpurple") {
        Some("#9370db")
    } else if str_eq(s, "mediumseagreen") {
        Some("#3cb371")
    } else if str_eq(s, "mediumslateblue") {
        Some("#7b68ee")
    } else if str_eq(s, "mediumspringgreen") {
        Some("#00fa9a")
    } else if str_eq(s, "mediumturquoise") {
        Some("#48d1cc")
    } else if str_eq(s, "mediumvioletred") {
        Some("#c71585")
    } else if str_eq(s, "midnightblue") {
        Some("#191970")
    } else if str_eq(s, "mintcream") {
        Some("#f5fffa")
    } else if str_eq(s, "mistyrose") {
        Some("#ffe4e1")
    } else if str_eq(s, "moccasin") {
        Some("#ffe4b5")
    } else {
        None
    }
}

/// The table entries from `navajowhite` to `purple`.
pub open spec fn name_code_n_to_p(s: Seq<char>) -> Option<Seq<char>> {
    if s == "navajowhite"@ {
        Some("#ffdead"@)
    } else if s == "navy"@ {
        Some("#000080"@)
    } else if s == "oldlace"@ {
        Some("#fdf5e6"@)
    } else if s == "olive"@ {
        Some("#808000"@)
    } else if s == "olivedrab"@ {
        Some("#6b8e23"@)
    } else if s == "orange"@ {
        Some("#ffa500"@)
    } else if s == "orangered"@ {
        Some("#ff4500"@)
    } else if s == "orchid"@ {
        Some("#da70d6"@)
    } else if s == "palegoldenrod"@ {
        Some("#eee8aa"@)
    } else if s == "palegreen"@ {
        Some("#98fb98"@)
    } else if s == "paleturquoise"@ {
        Some("#afeeee"@)
    } else if s == "palevioletred"@ {
        Some("#db7093"@)
    } else if s == "papayawhip"@ {
        Some("#ffefd5"@)
    } else if s == "peachpuff"@ {
        Some("#ffdab9"@)
    } else if s == "peru"@ {
        Some("#cd853f"@)
    } else if s == "pink"@ {
        Some("#ffc0cb"@)
    } else if s == "plum"@ {
        Some("#dda0dd"@)
    } else if s == "powderblue"@ {
        Some("#b0e0e6"@)
    } else if s == "purple"@ {
        Some("#800080"@)
    } else {
        None
    }
}

/// Looks a lowercase name up among the entries from `navajowhite` to `purple`.
fn lookup_n_to_p(s: &str) -> (r: Option<&'static str>)
    ensures
        r matches Some(code) ==> name_code_n_to_p(s@) == Some(code@),
        r is None ==> name_code_n_to_p(s@) is None,
{
    if str_eq(s, "navajowhite") {
        Some("#ffdead")
    } else if str_eq(s, "navy") {
        Some("#000080")
    } else if str_eq(s, "oldlace") {
        Some("#fdf5e6")
    } else if str_eq(s, "olive") {
        Some("#808000")
    } else if str_eq(s, "olivedrab") {
        Some("#6b8e23")
    } else if str_eq(s, "orange") {
        Some("#ffa500")
    } else if str_eq(s, "orangered") {
        Some("#ff4500")
    } else if str_eq(s, "orchid") {
        Some("#da70d6")
    } else if str_eq(s, "palegoldenrod") {
        Some("#eee8aa")
    } else if str_eq(s, "palegreen") {
        Some("#98fb98")
    } else if str_eq(s, "paleturquoise") {
        Some("#afeeee")
    } else if str_eq(s, "palevioletred") {
        Some("#db7093")
    } else if str_eq(s, "papayawhip") {
        Some("#ffefd5")
    } else if str_eq(s, "peachpuff") {
        Some("#ffdab9")
    } else if str_eq(s, "peru") {
        Some("#cd853f")
    } else if str_eq(s, "pink") {
        Some("#ffc0cb")
    } else if str_eq(s, "plum") {
        Some("#dda0dd")
    } else if str_eq(s, "powderblue") {
        Some("#b0e0e6")
    } else if str_eq(s, "purple") {
        Some("#800080")
    } else {
        None
    }
}

/// The table entries from `rebeccapurple` to `steelblue`.
pub open spec fn name_code_r_to_s(s: Seq<char>) -> Option<Seq<char>> {
    if s == "rebeccapurple"@ {
        Some("#663399"@)
    } else if s == "red"@ {
        Some("#ff0000"@)
    } else if s == "rosybrown"@ {
        Some("#bc8f8f"@)
    } else if s == "royalblue"@ {
        Some("#4169e1"@)
    } else if s == "saddlebrown"@ {
        Some("#8b4513"@)
    } else if s == "salmon"@ {
        Some("#fa8072"@)
    } else if s == "sandybrown"@ {
        Some("#f4a460"@)
    } else if s == "seagreen"@ {
        Some("#2e8b57"@)
    } else if s == "seashell"@ {
        Some("#fff5ee"@)
    } else if s == "sienna"@ {
        Some("#a0522d"@)
    } else if s == "silver"@ {
        Some("#c0c0c0"@)
    } else if s == "skyblue"@ {
        Some("#87ceeb"@)
    } else if s == "slateblue"@ {
        Some("#6a5acd"@)
    } else if s == "slategray"@ {
        Some("#708090"@)
    } else if s == "slategrey"@ {
        Some("#708090"@)
    } else if s == "snow"@ {
        Some("#fffafa"@)
    } else if s == "springgreen"@ {
        Some("#00ff7f"@)
    } else if s == "steelblue"@ {
        Some("#4682b4"@)
    } else {
        None
    }
}

/// Looks a lowercase name up among the entries from `rebeccapurple` to `steelblue`.
fn lookup_r_to_s(s: &str) -> (r: Option<&'static str>)
    ensures
        r matches Some(code) ==> name_code_r_to_s(s@) == Some(code@),
        r is None ==> name_code_r_to_s(s@) is None,
{
    if str_eq(s, "rebeccapurple") {
        Some("#663399")
    } else if str_eq(s, "red") {
        Some("#ff0000")
    } else if str_eq(s, "rosybrown") {
        Some("#bc8f8f")
    } else if str_eq(s, "royalblue") {
        Some("#4169e1")
    } else if str_eq(s, "saddlebrown") {
        Some("#8b4513")
    } else if str_eq(s, "salmon") {
        Some("#fa8072")
    } else if str_eq(s, "sandybrown") {
        Some("#f4a460")
    } else if str_eq(s, "seagreen") {
        Some("#2e8b57")
    } else if str_eq(s, "seashell") {
        Some("#fff5ee")
    } else if str_eq(s, "sienna") {
        Some("#a0522d")
    } else if str_eq(s, "silver") {
        Some("#c0c0c0")
    } else if str_eq(s, "skyblue") {
        Some("#87ceeb")
    } else if str_eq(s, "slateblue") {
        Some("#6a5acd")
    } else if str_eq(s, "slategray") {
        Some("#708090")
    } else if str_eq(s, "slategrey") {
        Some("#708090")
    } else if str_eq(s, "snow") {
        Some("#fffafa")
    } else if str_eq(s, "springgreen") {
        Some("#00ff7f")
    } else if str_eq(s, "steelblue") {
        Some("#4682b4")
    } else {
        None
    }
}

/// The table entries from `tan` to `yellowgreen`.
pub open spec fn name_code_t_to_y(s: Seq<char>) -> Option<Seq<char>> {
    if s == "tan"@ {
        Some("#d2b48c"@)
    } else if s == "teal"@ {
        Some("#008080"@)
    } else if s == "thistle"@ {
        Some("#d8bfd8"@)
    } else if s == "tomato"@ {
        Some("#ff6347"@)
    } else if s == "turquoise"@ {
        Some("#40e0d0"@)
    } else if s == "violet"@ {
        Some("#ee82ee"@)
    } else if s == "wheat"@ {
        Some("#f5deb3"@)
    } else if s == "white"@ {
        Some("#ffffff"@)
    } else if s == "whitesmoke"@ {
        Some("#f5f5f5"@)
    } else if s == "yellow"@ {
        Some("#ffff00"@)
    } else if s == "yellowgreen"@ {
        Some("#9acd32"@)
    } else {
        None
    }
}

/// Looks a lowercase name up among the entries from `tan` to `yellowgreen`.
fn lookup_t_to_y(s: &str) -> (r: Option<&'static str>)
    ensures
        r matches Some(code) ==> name_code_t_to_y(s@) == Some(code@),
        r is None ==> name_code_t_to_y(s@) is None,
{
    if str_eq(s, "tan") {
        Some("#d2b48c")
    } else if str_eq(s, "teal") {
        Some("#008080")
    } else if str_eq(s, "thistle") {
        Some("#d8bfd8")
    } else if str_eq(s, "tomato") {
        Some("#ff6347")
    } else if str_eq(s, "turquoise") {
        Some("#40e0d0")
    } else if str_eq(s, "violet") {
        Some("#ee82ee")
    } else if str_eq(s, "wheat") {
        Some("#f5deb3")
    } else if str_eq(s, "white") {
        Some("#ffffff")
    } else if str_eq(s, "whitesmoke") {
        Some("#f5f5f5")
    } else if str_eq(s, "yellow") {
        Some("#ffff00")
    } else if str_eq(s, "yellowgreen") {
        Some("#9acd32")
    } else {
        None
    }
}

/// The hex code that the X11 table assigns to a lowercase color name.
pub open spec fn name_code_spec(s: Seq<char>) -> Option<Seq<char>> {
    if name_code_a_to_c(s) is Some {
        name_code_a_to_c(s)
    } else if name_code_d(s) is Some {
        name_code_d(s)
    } else if name_code_f_to_h(s) is Some {
        name_code_f_to_h(s)
    } else if name_code_i_to_l(s) is Some {
        name_code_i_to_l(s)
    } else if name_code_m(s) is Some {
        name_code_m(s)
    } else if name_code_n_to_p(s) is Some {
        name_code_n_to_p(s)
    } else if name_code_r_to_s(s) is Some {
        name_code_r_to_s(s)
    } else if name_code_t_to_y(s) is Some {
        name_code_t_to_y(s)
    } else {
        None
    }
}

/// Looks a lowercase color name up in the X11 table.
pub fn hex_code_of_name(s: &str) -> (r: Option<&'static str>)
    ensures
        r matches Some(code) ==> name_code_spec(s@) == Some(code@),
        r is None ==> name_code_spec(s@) is None,
{
    if let Some(code) = lookup_a_to_c(s) {
        Some(code)
    } else if let Some(code) = lookup_d(s) {
        Some(code)
    } else if let Some(code) = lookup_f_to_h(s) {
        Some(code)
    } else if let Some(code) = lookup_i_to_l(s) {
        Some(code)
    } else if let Some(code) = lookup_m(s) {
        Some(code)
    } else if let Some(code) = lookup_n_to_p(s) {
        Some(code)
    } else if let Some(code) = lookup_r_to_s(s) {
        Some(code)
    } else if let Some(code) = lookup_t_to_y(s) {
        Some(code)
    } else {
        None
    }
}

/// What looking a color name up yields, over the name's characters: the
/// name is lowercased, looked up in the X11 table, and the hex code found
/// there is parsed; an unknown name is reported as such.
pub open spec fn from_color_name_spec(s: Seq<char>) -> Result<RGBColor, RGBParseError> {
    match name_code_spec(lower_of(s)) {
        Some(code) => from_hex_spec(code),
        None => Err(RGBParseError::InvalidX11Name),
    }
}

impl RGBColor {
    /// Gets the RGB color corresponding to an X11 color name. Case is
    /// ignored.
    pub fn from_color_name(name: &str) -> (result: Result<RGBColor, RGBParseError>)
        ensures
            result == from_color_name_spec(name@),
    {
        let lower = lowercase(name);
        match hex_code_of_name(lower.as_str()) {
            None => Err(RGBParseError::InvalidX11Name),
            Some(code) => RGBColor::from_hex_code(code),
        }
    }
}

} // verus!
