use stregsystemet_tui::decimal::{int_chars, parse_i32, parse_unsigned};

fn chars(s: &str) -> Vec<char> {
    s.chars().collect()
}

#[test]
fn integers_parse_as_str_parse_does() {
    assert_eq!(parse_i32(&chars("12")), Some(12));
    assert_eq!(parse_i32(&chars("+7")), Some(7));
    assert_eq!(parse_i32(&chars("-2147483648")), Some(i32::MIN));
    assert_eq!(parse_i32(&chars("2147483647")), Some(i32::MAX));
    assert_eq!(parse_i32(&chars("2147483648")), None);
    assert_eq!(parse_i32(&chars("-")), None);
    assert_eq!(parse_i32(&chars("")), None);
    assert_eq!(parse_i32(&chars("1a")), None);
    assert_eq!(parse_unsigned(&chars("0042"), u64::MAX), Some(42));
    assert_eq!(parse_unsigned(&chars("256"), 255), None);
    assert_eq!(parse_unsigned(&chars("-1"), 255), None);
}

#[test]
fn integers_are_written_in_decimal() {
    assert_eq!(int_chars(0).iter().collect::<String>(), "0");
    assert_eq!(int_chars(-905).iter().collect::<String>(), "-905");
    assert_eq!(int_chars(i64::MIN).iter().collect::<String>(), i64::MIN.to_string());
}
