use mystock::text::{decimal_string, join_strings, signed_decimal_string, split_fields, starts_with_char, str_equals};

#[test]
fn split_keeps_empty_pieces() {
    assert_eq!(split_fields("a,,b", ','), vec!["a", "", "b"]);
    assert_eq!(split_fields("", ','), vec![""]);
    assert_eq!(split_fields(",x,", ','), vec!["", "x", ""]);
    assert_eq!(split_fields("2024-12-02,9.5,9.8", ','), vec!["2024-12-02", "9.5", "9.8"]);
}

#[test]
fn split_then_join_gives_back_the_line() {
    for line in ["a,,b", "", ",", "2024-01-02 09:31,1,2,3", "no separator", "多,字"] {
        let parts = split_fields(line, ',');
        assert_eq!(join_strings(&parts, ","), line);
    }
}

#[test]
fn decimal_text() {
    assert_eq!(decimal_string(0), "0");
    assert_eq!(decimal_string(7), "7");
    assert_eq!(decimal_string(2024), "2024");
    assert_eq!(decimal_string(u64::MAX), u64::MAX.to_string());
    assert_eq!(signed_decimal_string(-5), "-5");
    assert_eq!(signed_decimal_string(i64::MIN), i64::MIN.to_string());
    assert_eq!(signed_decimal_string(20241212), "20241212");
}

#[test]
fn text_comparisons() {
    assert!(str_equals("abc", "abc"));
    assert!(!str_equals("abc", "abd"));
    assert!(!str_equals("abc", "ab"));
    assert!(starts_with_char("600000", '6'));
    assert!(!starts_with_char("000004", '6'));
    assert!(!starts_with_char("", '6'));
}
