use openmicc::text::{is_whitespace, split_whitespace, str_eq};

#[test]
fn whitespace_matches_std_for_every_char() {
    for v in 0u32..=0x10ffff {
        if let Some(c) = char::from_u32(v) {
            assert_eq!(is_whitespace(c), c.is_whitespace(), "U+{:04X}", v);
        }
    }
}

#[test]
fn split_matches_std() {
    let samples = [
        "",
        " ",
        "a",
        "  a  b\tc\n",
        "x\u{3000}y\u{2028}z",
        "one",
        "héllo wörld",
        "\u{a0}lead and trail\u{85}",
    ];
    for s in samples {
        let expected: Vec<&str> = s.split_whitespace().collect();
        assert_eq!(split_whitespace(s), expected, "{:?}", s);
    }
}

#[test]
fn string_equality() {
    assert!(str_eq("abc", "abc"));
    assert!(!str_eq("abc", "abd"));
    assert!(!str_eq("abc", "ab"));
    assert!(str_eq("", ""));
    assert!(str_eq("ünï", "ünï"));
}
