use zkcoprocessor::bytes::{u128_from_be_bytes, u128_from_le_bytes, u128_to_le_bytes, u64_to_le_bytes};
use zkcoprocessor::decimal::parse_u128;
use zkcoprocessor::text::{decimal_string, format_account_short};

#[test]
fn le_bytes_of_u128_match_std() {
    let x: u128 = 0x0102_0304_0506_0708_090a_0b0c_0d0e_0f10;
    assert_eq!(u128_to_le_bytes(x), x.to_le_bytes().to_vec());
    assert_eq!(u128_to_le_bytes(0), vec![0u8; 16]);
}

#[test]
fn le_bytes_of_u64_match_std() {
    let x: u64 = 19_000_123;
    assert_eq!(u64_to_le_bytes(x), x.to_le_bytes().to_vec());
}

#[test]
fn le_bytes_read_back() {
    for x in [0u128, 1, 255, 256, 19000000000001, u128::MAX] {
        let bytes = u128_to_le_bytes(x);
        assert_eq!(u128_from_le_bytes(&bytes), x);
    }
}

#[test]
fn be_bytes_are_read_most_significant_first() {
    assert_eq!(u128_from_be_bytes(&[0x01, 0x02]), 0x0102);
    assert_eq!(u128_from_be_bytes(&[]), 0);
    assert_eq!(u128_from_be_bytes(&[0xff; 16]), u128::MAX);
}

#[test]
fn parse_accepts_plain_and_plus_signed_digits() {
    assert_eq!(parse_u128("1000000000000000000"), Some(1000000000000000000));
    assert_eq!(parse_u128("+5"), Some(5));
    assert_eq!(parse_u128("007"), Some(7));
    assert_eq!(parse_u128("340282366920938463463374607431768211455"), Some(u128::MAX));
}

#[test]
fn parse_rejects_what_std_rejects() {
    for text in ["", "+", "-5", "12a", " 1", "1.5", "340282366920938463463374607431768211456"] {
        assert_eq!(parse_u128(text), None, "{text}");
        assert!(text.parse::<u128>().is_err());
    }
}

#[test]
fn decimal_text_reads_back() {
    for v in [0u128, 9, 10, 12345, u128::MAX] {
        let text = decimal_string(v);
        assert_eq!(text, v.to_string());
        assert_eq!(parse_u128(&text), Some(v));
    }
}

#[test]
fn account_short_form() {
    assert_eq!(format_account_short(1000042), "0x00000000...000f426a");
    let acct: u128 = 0xdead_beef_0000_0000_0000_0000_1234_5678;
    assert_eq!(format_account_short(acct), format!("0x{:08x}...{:08x}", (acct >> 96) as u32, acct as u32));
}
