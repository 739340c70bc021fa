use service_berry::text::{decimal_text, push_byte_hex_upper, text_eq};

#[test]
fn decimal_text_writes_numerals() {
    assert_eq!(decimal_text(0), "0");
    assert_eq!(decimal_text(9), "9");
    assert_eq!(decimal_text(10), "10");
    assert_eq!(decimal_text(65535), "65535");
    assert_eq!(decimal_text(u128::MAX), "340282366920938463463374607431768211455");
}

#[test]
fn text_eq_compares_characters() {
    assert!(text_eq("position", "position"));
    assert!(!text_eq("position", "positioN"));
    assert!(!text_eq("position", "positions"));
    assert!(text_eq("", ""));
    assert!(text_eq("h\u{e9}", "h\u{e9}"));
    assert!(!text_eq("h\u{e9}", "h\u{e8}"));
}

#[test]
fn push_byte_hex_upper_appends_two_digits() {
    let mut text = String::from("x");
    push_byte_hex_upper(&mut text, 0x0a);
    push_byte_hex_upper(&mut text, 0xf9);
    push_byte_hex_upper(&mut text, 0x00);
    assert_eq!(text, "x0AF900");
}
