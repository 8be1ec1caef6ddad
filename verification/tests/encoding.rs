use danta::config::{max_capacity, ticket_amount, ConfigError};
use danta::decimal::i32_to_decimal;
use danta::hexcode::{decode_payment_hash, encode_hex, HexError};

#[test]
fn encode_hex_writes_two_lowercase_digits_per_byte() {
    assert_eq!(encode_hex(&[0x00, 0xab, 0x0f, 0xff, 0x10]), "00ab0fff10");
    assert_eq!(encode_hex(&[]), "");
}

#[test]
fn decode_payment_hash_reads_back_encoded_hash() {
    let hash: Vec<u8> = (0u8..32).map(|i| i.wrapping_mul(37).wrapping_add(5)).collect();
    let text = encode_hex(&hash);
    assert_eq!(text.len(), 64);
    assert_eq!(decode_payment_hash(&text), Ok(hash));
}

#[test]
fn decode_payment_hash_accepts_upper_case() {
    let text = "AB".repeat(32);
    assert_eq!(decode_payment_hash(&text), Ok(vec![0xab; 32]));
}

#[test]
fn decode_payment_hash_rejects_odd_length() {
    assert_eq!(decode_payment_hash("abc"), Err(HexError::OddLength));
    assert_eq!(decode_payment_hash(&"a".repeat(65)), Err(HexError::OddLength));
}

#[test]
fn decode_payment_hash_rejects_wrong_length() {
    assert_eq!(decode_payment_hash(""), Err(HexError::InvalidStringLength));
    assert_eq!(decode_payment_hash(&"ab".repeat(31)), Err(HexError::InvalidStringLength));
}

#[test]
fn decode_payment_hash_reports_first_bad_character() {
    let mut text = "0".repeat(64);
    text.replace_range(5..6, "g");
    text.replace_range(9..10, "z");
    assert_eq!(
        decode_payment_hash(&text),
        Err(HexError::InvalidHexCharacter { c: 'g', index: 5 })
    );
}

#[test]
fn i32_to_decimal_matches_display() {
    for n in [0, 7, 10, 42, 1000, -1, -7, -1000, i32::MAX, i32::MIN] {
        assert_eq!(i32_to_decimal(n), n.to_string());
    }
}

#[test]
fn decimal_text_reads_back() {
    for n in [0, 5, -5, 123456, i32::MAX, i32::MIN] {
        assert_eq!(max_capacity(&i32_to_decimal(n)), Ok(n));
    }
}

#[test]
fn max_capacity_reads_signed_decimal() {
    assert_eq!(max_capacity("100"), Ok(100));
    assert_eq!(max_capacity("+3"), Ok(3));
    assert_eq!(max_capacity("-5"), Ok(-5));
    assert_eq!(max_capacity(""), Err(ConfigError::NotANumber));
    assert_eq!(max_capacity(" 1"), Err(ConfigError::NotANumber));
    assert_eq!(max_capacity("1_000"), Err(ConfigError::NotANumber));
    assert_eq!(max_capacity("-"), Err(ConfigError::NotANumber));
    assert_eq!(max_capacity("2147483648"), Err(ConfigError::NotANumber));
}

#[test]
fn ticket_amount_reads_unsigned_decimal() {
    assert_eq!(ticket_amount("21000"), Ok(21000));
    assert_eq!(ticket_amount("4294967295"), Ok(u32::MAX));
    assert_eq!(ticket_amount("4294967296"), Err(ConfigError::NotANumber));
    assert_eq!(ticket_amount("-1"), Err(ConfigError::NotANumber));
    assert_eq!(ticket_amount("ten"), Err(ConfigError::NotANumber));
}
