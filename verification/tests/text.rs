use jellytui::text::{decimal_pad2_string, decimal_string, same_text, signed_decimal_string, string_from_chars};

#[test]
fn decimal_formatting() {
    assert_eq!(decimal_string(0), "0");
    assert_eq!(decimal_string(7), "7");
    assert_eq!(decimal_string(1234567890), "1234567890");
    assert_eq!(decimal_string(u64::MAX), u64::MAX.to_string());
    assert_eq!(signed_decimal_string(-42), "-42");
    assert_eq!(signed_decimal_string(i32::MIN), i32::MIN.to_string());
    assert_eq!(signed_decimal_string(5), "5");
    assert_eq!(decimal_pad2_string(3), "03");
    assert_eq!(decimal_pad2_string(12), "12");
    assert_eq!(decimal_pad2_string(123), "123");
}

#[test]
fn text_helpers() {
    assert!(same_text("abc", "abc"));
    assert!(!same_text("abc", "abd"));
    assert!(!same_text("ab", "abc"));
    assert_eq!(string_from_chars(&['h', 'é', '!']), "hé!");
}
