use ocpp_gateway::text::{format_i32, parse_i32, str_eq};

#[test]
fn integers_print_in_decimal() {
    assert_eq!(format_i32(0), "0");
    assert_eq!(format_i32(7), "7");
    assert_eq!(format_i32(-7), "-7");
    assert_eq!(format_i32(1800), "1800");
    assert_eq!(format_i32(i32::MAX), "2147483647");
    assert_eq!(format_i32(i32::MIN), "-2147483648");
}

#[test]
fn integers_parse_like_std() {
    for t in ["0", "42", "-42", "+42", "007", "2147483647", "-2147483648", "2147483648", "-2147483649", "", "-", "+", "4a", " 1", "1 ", "--1"] {
        assert_eq!(parse_i32(t), t.parse::<i32>().ok(), "{t:?}");
    }
}

#[test]
fn printed_integers_read_back() {
    for x in [0, 1, -1, 99, -100, 123_456, i32::MAX, i32::MIN] {
        assert_eq!(parse_i32(&format_i32(x)), Some(x));
    }
}

#[test]
fn strings_compare_by_content() {
    assert!(str_eq("true", "true"));
    assert!(!str_eq("true", "True"));
    assert!(!str_eq("é", "e"));
    assert!(str_eq("", ""));
}
