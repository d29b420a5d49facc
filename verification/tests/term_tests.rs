use scarlet::color::RGBColor;

#[test]
fn test_colored_str_escape_codes() {
    let c = RGBColor { r: 255, g: 0, b: 1 };
    assert_eq!(
        c.base_write_colored_str("hi"),
        "\u{1b}[38;2;255;0;1mhi\u{1b}[39m"
    );
    let c = RGBColor { r: 0, g: 0, b: 0 };
    assert_eq!(c.base_write_colored_str(""), "\u{1b}[38;2;0;0;0m\u{1b}[39m");
}

#[test]
fn test_color_square_escape_codes() {
    let c = RGBColor { r: 1, g: 2, b: 3 };
    assert_eq!(
        c.base_write_color(),
        "\u{1b}[48;2;1;2;3m\u{1b}[38;2;1;2;3m\u{25a0}\u{1b}[39m\u{1b}[49m"
    );
}

#[test]
fn test_escape_codes_match_termion() {
    // the library's rendering must agree with termion itself
    let c = RGBColor { r: 120, g: 7, b: 250 };
    assert_eq!(
        c.base_write_colored_str("x"),
        format!(
            "{}x{}",
            termion::color::Rgb(120, 7, 250).fg_string(),
            termion::color::Reset.fg_str()
        )
    );
    assert_eq!(
        c.base_write_color(),
        format!(
            "{}{}\u{25a0}{}{}",
            termion::color::Rgb(120, 7, 250).bg_string(),
            termion::color::Rgb(120, 7, 250).fg_string(),
            termion::color::Reset.fg_str(),
            termion::color::Reset.bg_str()
        )
    );
}
