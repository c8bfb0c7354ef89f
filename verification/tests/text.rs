use sidafa_cache::text::{decimal_text, join, parse_u16, text_equal, text_less};

#[test]
fn less_is_lexicographic() {
    assert!(text_less("a", "b"));
    assert!(!text_less("b", "a"));
    assert!(text_less("a", "ab"));
    assert!(!text_less("ab", "a"));
    assert!(text_less("", "a"));
    assert!(!text_less("", ""));
    assert!(!text_less("abc", "abc"));
    assert!(text_less("Z", "a"));
    assert!(text_less("abc", "abd"));
    assert!(text_less("z", "é"));
}

#[test]
fn less_agrees_with_std_order() {
    let words = ["", "a", "A", "ab", "b", "é", "日本", "zz", "a/b", "10", "9"];
    for x in words {
        for y in words {
            assert_eq!(text_less(x, y), x < y);
            assert_eq!(text_equal(x, y), x == y);
        }
    }
}

#[test]
fn decimal_numerals() {
    assert_eq!(decimal_text(0), "0");
    assert_eq!(decimal_text(7), "7");
    assert_eq!(decimal_text(10), "10");
    assert_eq!(decimal_text(400), "400");
    assert_eq!(decimal_text(6379), "6379");
    assert_eq!(decimal_text(65535), "65535");
}

#[test]
fn join_with_separator() {
    let parts = vec!["a".to_string(), "b".to_string(), "c".to_string()];
    assert_eq!(join(&parts, ", "), "a, b, c");
    assert_eq!(join(&vec!["a".to_string()], ", "), "a");
    assert_eq!(join(&Vec::new(), ", "), "");
}

#[test]
fn parse_numbers() {
    assert_eq!(parse_u16("3000"), Some(3000));
    assert_eq!(parse_u16("0"), Some(0));
    assert_eq!(parse_u16("007"), Some(7));
    assert_eq!(parse_u16("+80"), Some(80));
    assert_eq!(parse_u16("65535"), Some(65535));
    assert_eq!(parse_u16("65536"), None);
    assert_eq!(parse_u16("99999999999999999999"), None);
    assert_eq!(parse_u16(""), None);
    assert_eq!(parse_u16("+"), None);
    assert_eq!(parse_u16("-1"), None);
    assert_eq!(parse_u16("12a"), None);
    assert_eq!(parse_u16(" 12"), None);
    assert_eq!(parse_u16("++1"), None);
}

#[test]
fn parse_agrees_with_std() {
    let texts = ["1", "+1", "-0", "0000", "65535", "65536", "6553x", "", "+", "٣"];
    for t in texts {
        assert_eq!(parse_u16(t), t.parse::<u16>().ok());
    }
}
