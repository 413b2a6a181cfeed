use tabbed_web_app::text::{char_is_white_space, decimal_string, str_ends_with, trim_str};

#[test]
fn trim_matches_std_trim() {
    for s in [
        "",
        "   ",
        "abc",
        "  a b  ",
        "\t\r\nx\u{0b}\u{0c}",
        "\u{85}\u{a0}y\u{1680}\u{2000}\u{200a}",
        "\u{2028}\u{2029}\u{202f}\u{205f}\u{3000}z z\u{3000}",
        "\u{200b}zero width stays\u{200b}",
        "ümlaut ",
    ] {
        assert_eq!(trim_str(s), s.trim(), "{s:?}");
    }
}

#[test]
fn white_space_matches_std() {
    for c in ['\u{0}', ' ', 'a', '\u{85}', '\u{a0}', '\u{180e}', '\u{200b}', '\u{3000}', '\u{feff}'] {
        assert_eq!(char_is_white_space(c), c.is_whitespace(), "{c:?}");
    }
    for u in 0u32..0x3100 {
        if let Some(c) = char::from_u32(u) {
            assert_eq!(char_is_white_space(c), c.is_whitespace(), "{u:#x}");
        }
    }
}

#[test]
fn decimal_matches_to_string() {
    for n in [0u32, 1, 9, 10, 11, 99, 100, 12345, 1_000_000, u32::MAX] {
        assert_eq!(decimal_string(n), n.to_string());
    }
}

#[test]
fn ends_with_matches_std() {
    for (s, t) in [("a.github.com", ".github.com"), ("github.com", ".github.com"), ("", ""), ("x", ""), ("", "x"), ("ab", "b"), ("ab", "a")] {
        assert_eq!(str_ends_with(s, t), s.ends_with(t), "{s} {t}");
    }
}
