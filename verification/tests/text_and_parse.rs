use iroh_raft::parse::{int_error_text, parse_bool, parse_u64, IntErrorKind};
use iroh_raft::text::{
    cat2, cat3, cat4, cat5, cat6, char_at, char_count, contains_str, format_duration_ms,
    push_decimal, push_digit, str_eq, strip_prefix_str, u64_to_string,
};

#[test]
fn decimal_text_of_numbers() {
    assert_eq!(u64_to_string(0), "0");
    assert_eq!(u64_to_string(7), "7");
    assert_eq!(u64_to_string(1234567890), "1234567890");
    assert_eq!(u64_to_string(u64::MAX), u64::MAX.to_string());
    let mut s = String::from("n=");
    push_decimal(&mut s, 305);
    push_digit(&mut s, 9);
    assert_eq!(s, "n=3059");
}

#[test]
fn string_helpers() {
    assert!(str_eq("abc", "abc"));
    assert!(!str_eq("abc", "abd"));
    assert_eq!(char_count("héllo"), 5);
    assert_eq!(char_at("héllo", 1), 'é');
    assert_eq!(cat2("a", "b"), "ab");
    assert_eq!(cat3("a", "b", "c"), "abc");
    assert_eq!(cat4("a", "b", "c", "d"), "abcd");
    assert_eq!(cat5("a", "b", "c", "d", "e"), "abcde");
    assert_eq!(cat6("a", "b", "c", "d", "e", "f"), "abcdef");
}

#[test]
fn duration_text_matches_debug_form() {
    for ms in [0u64, 1, 5, 250, 999, 1000, 1500, 1050, 1005, 30000, 60000, 123456] {
        let expected = format!("{:?}", std::time::Duration::from_millis(ms));
        assert_eq!(format_duration_ms(ms), expected, "ms = {}", ms);
    }
    assert_eq!(format_duration_ms(1500), "1.5s");
    assert_eq!(format_duration_ms(0), "0ns");
}

#[test]
fn substring_search_and_prefix() {
    assert!(contains_str("hello world", "o w"));
    assert!(contains_str("hello", ""));
    assert!(!contains_str("hello", "hello!"));
    assert!(!contains_str("hello", "lo!"));
    assert_eq!(strip_prefix_str("IROH_RAFT_NODE_ID", "IROH_RAFT_"), Some("NODE_ID".to_string()));
    assert_eq!(strip_prefix_str("abc", "abcd"), None);
    assert_eq!(strip_prefix_str("abc", "b"), None);
    assert_eq!(strip_prefix_str("abc", ""), Some("abc".to_string()));
}

#[test]
fn integers_parse_as_std_does() {
    for s in ["0", "42", "+7", "18446744073709551615", "18446744073709551616", "", "+", "-1", "12a", " 1"] {
        let mine = parse_u64(s);
        let std_result = s.parse::<u64>();
        match (&mine, &std_result) {
            (Ok(a), Ok(b)) => assert_eq!(a, b),
            (Err(k), Err(e)) => assert_eq!(int_error_text(*k), e.to_string(), "text {:?}", s),
            _ => panic!("disagreement on {:?}: {:?} vs {:?}", s, mine, std_result),
        }
    }
    assert_eq!(parse_u64(""), Err(IntErrorKind::Empty));
    assert_eq!(parse_u64("1x"), Err(IntErrorKind::InvalidDigit));
    assert_eq!(parse_u64("99999999999999999999"), Err(IntErrorKind::PosOverflow));
}

#[test]
fn booleans_parse_as_std_does() {
    assert_eq!(parse_bool("true"), Some(true));
    assert_eq!(parse_bool("false"), Some(false));
    assert_eq!(parse_bool("True"), None);
    assert_eq!(parse_bool(""), None);
}

