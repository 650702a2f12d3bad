use webhook_relay::text::{char_is_whitespace, chars_of, trim, trim_bounds};

#[test]
fn whitespace_is_what_std_calls_whitespace() {
    let mut code: u32 = 0;
    let mut seen = 0;
    while code <= 0x10FFFF {
        if let Some(c) = char::from_u32(code) {
            assert_eq!(char_is_whitespace(c), c.is_whitespace(), "U+{:04X}", code);
            if char_is_whitespace(c) {
                seen += 1;
            }
        }
        code += 1;
    }
    assert_eq!(seen, 25);
}

#[test]
fn whitespace_edges() {
    assert!(char_is_whitespace(' '));
    assert!(char_is_whitespace('\t'));
    assert!(char_is_whitespace('\n'));
    assert!(char_is_whitespace('\u{0B}'));
    assert!(char_is_whitespace('\u{0C}'));
    assert!(char_is_whitespace('\r'));
    assert!(char_is_whitespace('\u{85}'));
    assert!(char_is_whitespace('\u{A0}'));
    assert!(char_is_whitespace('\u{3000}'));
    assert!(!char_is_whitespace('\u{08}'));
    assert!(!char_is_whitespace('\u{0E}'));
    assert!(!char_is_whitespace('\u{200B}'));
    assert!(!char_is_whitespace('\u{180E}'));
    assert!(!char_is_whitespace('\u{FEFF}'));
    assert!(!char_is_whitespace('G'));
    assert!(!char_is_whitespace('\0'));
}

#[test]
fn chars_of_keeps_every_character_in_order() {
    assert_eq!(chars_of(""), Vec::<char>::new());
    assert_eq!(chars_of("GO"), vec!['G', 'O']);
    assert_eq!(chars_of(" a\u{e9}\u{2705} "), vec![' ', 'a', '\u{e9}', '\u{2705}', ' ']);
}

#[test]
fn trim_bounds_values() {
    assert_eq!(trim_bounds(&chars_of("")), (0, 0));
    assert_eq!(trim_bounds(&chars_of("GO")), (0, 2));
    assert_eq!(trim_bounds(&chars_of(" GO ")), (1, 3));
    assert_eq!(trim_bounds(&chars_of("\t\n G O\r\n")), (3, 6));
    assert_eq!(trim_bounds(&chars_of("   ")), (3, 3));
    assert_eq!(trim_bounds(&chars_of("x")), (0, 1));
    assert_eq!(trim_bounds(&chars_of(" x")), (1, 2));
    assert_eq!(trim_bounds(&chars_of("x ")), (0, 1));
}

#[test]
fn trim_strips_both_ends_only() {
    assert_eq!(trim(" GO "), "GO");
    assert_eq!(trim("GO"), "GO");
    assert_eq!(trim("\t\r\n GO \u{A0}\u{3000}"), "GO");
    assert_eq!(trim("  G O  "), "G O");
    assert_eq!(trim(""), "");
    assert_eq!(trim(" \t\n"), "");
    assert_eq!(trim("\u{2003}\u{e9}t\u{e9}\u{2003}"), "\u{e9}t\u{e9}");
    assert_eq!(trim("\u{200B}GO\u{200B}"), "\u{200B}GO\u{200B}");
}

#[test]
fn trim_agrees_with_std() {
    let samples = [
        "",
        " ",
        "GO",
        " GO",
        "GO ",
        " GO ",
        "\n\nGO\n\n",
        " G  O ",
        "\u{85}GO\u{1680}",
        "\u{2028}\u{2029}mixed \u{202F} inner\u{205F}",
        "\u{2705} \u{274C}",
        "   \u{1F600}   ",
        "\u{0B}\u{0C}x\u{0B}\u{0C}",
        "\u{2000}\u{2001}\u{2002}\u{2003}\u{2004}\u{2005}\u{2006}\u{2007}\u{2008}\u{2009}\u{200A}",
    ];
    for s in samples {
        assert_eq!(trim(s), s.trim(), "{:?}", s);
    }
}

#[test]
fn trim_is_idempotent() {
    for s in ["", "  ", " GO ", "\tG O\n", "GO"] {
        assert_eq!(trim(trim(s)), trim(s));
    }
}

#[test]
fn padding_does_not_change_the_trimmed_text() {
    let pads = ["", " ", "\t", "\r\n", " \u{A0} ", "\u{3000}\u{2009}"];
    for core in ["GO", "G O", "", "\u{e9}"] {
        for before in pads {
            for after in pads {
                let padded = format!("{}{}{}", before, core, after);
                assert_eq!(trim(&padded), trim(core), "{:?}", padded);
            }
        }
    }
}
