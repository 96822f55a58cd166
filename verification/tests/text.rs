use guess_chess::text::{ascii_uppercase, ends_with, parse_u32, push_decimal, split_ws, starts_with, str_equal};

#[test]
fn splits_at_white_space() {
    assert_eq!(split_ws("  a bb\tccc\n "), vec!["a", "bb", "ccc"]);
    assert!(split_ws("   ").is_empty());
    assert_eq!(split_ws("x\u{3000}y"), vec!["x", "y"]);
    assert_eq!(split_ws("rnbqkbnr/pppppppp/8/8/8/8/PPPPPPPP/RNBQKBNR w KQkq - 0 1").len(), 6);
}

#[test]
fn parses_u32_like_std() {
    for s in ["0", "1", "+7", "4294967295", "4294967296", "", "+", "-1", "1 ", "007", "12a"] {
        assert_eq!(parse_u32(s), s.parse::<u32>().ok(), "{}", s);
    }
}

#[test]
fn writes_decimals() {
    for n in [0u32, 7, 10, 42, 1000, u32::MAX] {
        let mut s = String::from("n=");
        push_decimal(&mut s, n);
        assert_eq!(s, format!("n={}", n));
    }
}

#[test]
fn prefixes_suffixes_and_case() {
    assert!(starts_with("drop:p", "drop:"));
    assert!(!starts_with("dro", "drop:"));
    assert!(ends_with("g:refresh", ":refresh"));
    assert!(!ends_with("refresh", ":refresh"));
    assert!(str_equal("é", "é"));
    assert!(!str_equal("a", "b"));
    assert_eq!(ascii_uppercase("pawn-é"), "PAWN-é");
}
