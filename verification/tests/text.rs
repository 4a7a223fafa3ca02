use totp_cli::text::{code_text, digit_to_char, CODE_DIGITS};
use totp_cli::totp::{code_constructor, Totp};

#[test]
fn digits_are_the_decimal_characters() {
    let expected = ['0', '1', '2', '3', '4', '5', '6', '7', '8', '9'];
    for digit in 0..10u32 {
        assert_eq!(digit_to_char(digit), expected[digit as usize]);
    }
    assert_eq!(digit_to_char(10), '0');
    assert_eq!(digit_to_char(47), '7');
}

#[test]
fn code_text_pads_with_zeros_on_the_left() {
    assert_eq!(CODE_DIGITS, 6);
    assert_eq!(code_text(0), "000000");
    assert_eq!(code_text(7), "000007");
    assert_eq!(code_text(42), "000042");
    assert_eq!(code_text(14_411), "014411");
    assert_eq!(code_text(533_482), "533482");
    assert_eq!(code_text(999_999), "999999");
}

#[test]
fn code_text_keeps_the_last_six_digits() {
    assert_eq!(code_text(1_000_000), "000000");
    assert_eq!(code_text(1_234_567), "234567");
    assert_eq!(code_text(u32::MAX), "967295");
}

#[test]
fn new_entry_is_blank() {
    let entry = Totp::new();
    assert_eq!(entry.key, "");
    assert_eq!(entry.address, "");
}

#[test]
fn code_constructor_puts_the_code_beside_the_label() {
    let entry = code_constructor("12345678901234567890".to_string(), "Alice".to_string(), 59);
    assert_eq!(entry.key, "533482");
    assert_eq!(entry.address, "Alice");
    let padded = code_constructor("secretB".to_string(), "Bob".to_string(), 59);
    assert_eq!(padded.key, "014411");
    assert_eq!(padded.address, "Bob");
}

#[test]
fn code_constructor_takes_the_utf8_bytes_of_the_secret() {
    let entry = code_constructor("\u{e9}".to_string(), String::new(), 59);
    assert_eq!(entry.key, "755218");
    assert_eq!(entry.address, "");
    let empty = code_constructor(String::new(), "none".to_string(), 59);
    assert_eq!(empty.key, "035051");
}

#[test]
fn entries_are_equal_where_their_codes_are() {
    let alice = code_constructor("secretA".to_string(), "Alice".to_string(), 59);
    let again = code_constructor("secretA".to_string(), "Someone".to_string(), 45);
    let later = code_constructor("secretA".to_string(), "Alice".to_string(), 90);
    assert!(alice == again);
    assert!(alice != later);
    assert!(Totp::new() == Totp::new());
    assert!(alice.clone() == alice);
}
