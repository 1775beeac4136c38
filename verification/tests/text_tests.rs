use rugit::text::{join_strings, split_once_char, strip_prefixes_str, trim_str, first_piece_str};

#[test]
fn trim_removes_unicode_white_space_on_both_sides() {
    assert_eq!(trim_str("  feature \t\n"), "feature");
    assert_eq!(trim_str("\u{3000}name\u{a0}"), "name");
    assert_eq!(trim_str("   "), "");
    assert_eq!(trim_str(""), "");
    assert_eq!(trim_str("a b"), "a b");
}

#[test]
fn trim_agrees_with_std() {
    for s in ["", " x ", "\u{2028}y\u{85}", "\u{1680}\u{200b}z", "no-space", " \u{205f} "] {
        assert_eq!(trim_str(s), s.trim());
    }
}

#[test]
fn strip_prefixes_removes_every_leading_copy() {
    assert_eq!(strip_prefixes_str("* main", "* "), "main");
    assert_eq!(strip_prefixes_str("* * main", "* "), "main");
    assert_eq!(strip_prefixes_str("  main", "* "), "  main");
    assert_eq!(strip_prefixes_str("main", ""), "main");
    for s in ["* * x", "*x", "* ", ""] {
        assert_eq!(strip_prefixes_str(s, "* "), s.trim_start_matches("* "));
    }
}

#[test]
fn split_once_splits_at_first_separator() {
    assert_eq!(split_once_char("M src/lib.rs", ' '), Some(("M", "src/lib.rs")));
    assert_eq!(split_once_char("?? a b", ' '), Some(("??", "a b")));
    assert_eq!(split_once_char("nospace", ' '), None);
    assert_eq!(split_once_char("  x", ' '), Some(("", " x")));
}

#[test]
fn first_piece_is_first_line() {
    assert_eq!(first_piece_str("subject\nbody", '\n'), "subject");
    assert_eq!(first_piece_str("one line", '\n'), "one line");
    assert_eq!(first_piece_str("", '\n'), "");
}

#[test]
fn join_puts_separator_between_items() {
    let v = vec!["a".to_string(), "b".to_string(), "c".to_string()];
    assert_eq!(join_strings(&v, ", "), "a, b, c");
    assert_eq!(join_strings(&Vec::new(), "\n"), "");
    assert_eq!(join_strings(&vec!["only".to_string()], "\n"), "only");
}
