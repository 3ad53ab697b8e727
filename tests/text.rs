use dsrs_core::text::{join, lines, trim};

#[test]
fn trim_strips_unicode_white_space() {
    assert_eq!(trim("  \t a b \u{3000}\n"), "a b");
    assert_eq!(trim("   "), "");
}

#[test]
fn lines_split_like_std() {
    for s in ["", "a", "a\n", "a\r\nb", "\n\nx\n", "a\r", "x\n\r\n"] {
        let expected: Vec<String> = s.lines().map(|l| l.to_string()).collect();
        assert_eq!(lines(s), expected, "{:?}", s);
    }
}

#[test]
fn join_puts_separator_between() {
    let parts = vec!["a".to_string(), "b".to_string(), "c".to_string()];
    assert_eq!(join(&parts, ", "), "a, b, c");
    assert_eq!(join(&Vec::new(), ", "), "");
}
