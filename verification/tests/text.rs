use agent_runner::text::{
    chars_of, fmt_i64, fmt_u64, join_strings, lines_of, parse_u32, parse_u64, sort_strings,
    string_of, str_is_blank,
};

#[test]
fn decimal_rendering() {
    assert_eq!(fmt_u64(0), "0");
    assert_eq!(fmt_u64(1234567890), "1234567890");
    assert_eq!(fmt_u64(u64::MAX), u64::MAX.to_string());
    assert_eq!(fmt_i64(-1), "-1");
    assert_eq!(fmt_i64(i64::MIN), i64::MIN.to_string());
    assert_eq!(fmt_i64(42), "42");
}

#[test]
fn unsigned_parsing_follows_std() {
    for t in ["0", "+7", "4294967295", "4294967296", "", "+", "-1", " 1", "12a", "007"] {
        assert_eq!(parse_u32(t), t.parse::<u32>().ok(), "{t}");
        assert_eq!(parse_u64(t), t.parse::<u64>().ok(), "{t}");
    }
    assert_eq!(parse_u64("18446744073709551616"), None);
}

#[test]
fn lines_follow_std() {
    for t in ["", "a", "a\n", "a\nb", "a\r\nb\r\n", "\n\n", "x\r", "a\rb\nc", "\r\n"] {
        let expected: Vec<String> = t.lines().map(|l| l.to_string()).collect();
        assert_eq!(lines_of(t), expected, "{t:?}");
    }
}

#[test]
fn sorting_matches_std_sort() {
    let v = vec!["b".to_string(), "a".to_string(), "ab".to_string(), "B".to_string(), "é".to_string(), "a".to_string()];
    let mut expected = v.clone();
    expected.sort();
    assert_eq!(sort_strings(v), expected);
}

#[test]
fn join_and_chars() {
    assert_eq!(join_strings(&vec!["a".into(), "b".into(), "c".into()], ", "), "a, b, c");
    assert_eq!(join_strings(&vec![], "\n"), "");
    let cs = chars_of("héllo");
    assert_eq!(cs, vec!['h', 'é', 'l', 'l', 'o']);
    assert_eq!(string_of(&cs), "héllo");
}

#[test]
fn blank_detection() {
    assert!(str_is_blank(""));
    assert!(str_is_blank(" \t\u{3000}\u{a0}"));
    assert!(!str_is_blank("  x "));
}
