use scarlet::color::Mix;
use scarlet::color::RGBColor;
use scarlet::color::RGBParseError;

#[test]
fn test_rgb_to_string() {
    let c1 = RGBColor { r: 0, g: 0, b: 0 };
    let c2 = RGBColor { r: 244, g: 182, b: 33 };
    let c3 = RGBColor { r: 0, g: 255, b: 0 };
    assert_eq!(c1.to_string(), "#000000");
    assert_eq!(c2.to_string(), "#F4B621");
    assert_eq!(c3.to_string(), "#00FF00");
}

#[test]
fn test_mix_rgb() {
    let c1 = RGBColor::from((0, 0, 255));
    let c2 = RGBColor::from((255, 0, 1));
    let c3 = RGBColor::from((127, 7, 19));
    assert_eq!(c1.mix(c2).to_string(), "#7F0080");
    assert_eq!(c1.mix(c3).to_string(), "#3F0389");
    assert_eq!(c2.mix(c3).to_string(), "#BF030A");
}

#[test]
fn test_rgb_from_hex() {
    // test rgb format
    let rgb = RGBColor::from_hex_code("#172844").unwrap();
    assert_eq!(rgb.r, 23);
    assert_eq!(rgb.g, 40);
    assert_eq!(rgb.b, 68);
    // test with letters and no hex
    let rgb = RGBColor::from_hex_code("a1F1dB").unwrap();
    assert_eq!(rgb.r, 161);
    assert_eq!(rgb.g, 241);
    assert_eq!(rgb.b, 219);
    // test for error if 7 chars
    let rgb = RGBColor::from_hex_code("#1244444");
    assert!(match rgb {
        Err(x) if x == RGBParseError::InvalidHexSyntax => true,
        _ => false,
    });
    // test for error if invalid hex chars
    let rgb = RGBColor::from_hex_code("#ffggbb");
    assert!(match rgb {
        Err(x) if x == RGBParseError::InvalidHexSyntax => true,
        _ => false,
    });
}

#[test]
fn test_rgb_from_name() {
    let rgb = RGBColor::from_color_name("yeLlowgreEn").unwrap();
    assert_eq!(rgb.r, 154);
    assert_eq!(rgb.g, 205);
    assert_eq!(rgb.b, 50);
    // test error
    let rgb = RGBColor::from_color_name("thisisnotavalidnamelol");
    assert!(match rgb {
        Err(x) if x == RGBParseError::InvalidX11Name => true,
        _ => false,
    });
}

#[test]
fn test_to_string() {
    for hex in ["#000000", "#ABCDEF", "#1A2B3C", "#D00A12", "#40AA50"].iter() {
        assert_eq!(*hex, RGBColor::from_hex_code(hex).unwrap().to_string());
    }
}

#[test]
fn test_rgb_from_short_hex() {
    // each digit of the shorthand stands for a doubled pair
    let rgb = RGBColor::from_hex_code("abc").unwrap();
    assert_eq!((rgb.r, rgb.g, rgb.b), (170, 187, 204));
    let rgb = RGBColor::from_hex_code("#1Fb").unwrap();
    assert_eq!((rgb.r, rgb.g, rgb.b), (17, 255, 187));
}

#[test]
fn test_rgb_from_hex_rejects_bad_lengths() {
    for bad in ["", "#", "12", "#12", "1234", "12345", "1234567", "#abcd"].iter() {
        assert_eq!(RGBColor::from_hex_code(bad), Err(RGBParseError::InvalidHexSyntax));
    }
}

#[test]
fn test_rgb_mix_is_commutative() {
    let pairs = [
        ((0u8, 0u8, 255u8), (255u8, 0u8, 1u8)),
        ((127, 7, 19), (255, 0, 1)),
        ((1, 2, 3), (254, 253, 252)),
    ];
    for ((r1, g1, b1), (r2, g2, b2)) in pairs.iter() {
        let a = RGBColor { r: *r1, g: *g1, b: *b1 };
        let b = RGBColor { r: *r2, g: *g2, b: *b2 };
        assert_eq!(a.mix(b), b.mix(a));
    }
}

#[test]
fn test_rgb_tuple_round_trip() {
    let c = RGBColor::from((12, 34, 56));
    assert_eq!(c, RGBColor { r: 12, g: 34, b: 56 });
    let t: (u8, u8, u8) = c.into();
    assert_eq!(t, (12, 34, 56));
}

#[test]
fn test_color_name_lookup() {
    assert_eq!(scarlet::names::hex_code_of_name("aliceblue"), Some("#f0f8ff"));
    assert_eq!(scarlet::names::hex_code_of_name("rebeccapurple"), Some("#663399"));
    assert_eq!(scarlet::names::hex_code_of_name("yellowgreen"), Some("#9acd32"));
    // lookup expects an already-lowercased name and is case-sensitive itself
    assert_eq!(scarlet::names::hex_code_of_name("AliceBlue"), None);
    assert_eq!(scarlet::names::hex_code_of_name(""), None);
}

#[test]
fn test_color_name_values() {
    let black = RGBColor::from_color_name("black").unwrap();
    assert_eq!((black.r, black.g, black.b), (0, 0, 0));
    let white = RGBColor::from_color_name("WHITE").unwrap();
    assert_eq!((white.r, white.g, white.b), (255, 255, 255));
    let teal = RGBColor::from_color_name("Teal").unwrap();
    assert_eq!((teal.r, teal.g, teal.b), (0, 128, 128));
}
