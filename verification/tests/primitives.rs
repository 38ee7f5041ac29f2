use polymarket_client::primitives::{Address, B256, U256};

const MAX: &str = "115792089237316195423570985008687907853269984665640564039457584007913129639935";

#[test]
fn wide_numbers_in_decimal_notation() {
    assert_eq!(U256::zero().to_decimal(), "0");
    assert_eq!(U256::from_u64(u64::MAX).to_decimal(), "18446744073709551615");
    assert_eq!(U256 { limbs: [0, 1, 0, 0] }.to_decimal(), "18446744073709551616");
    assert_eq!(U256::max_value().to_decimal(), MAX);
}

#[test]
fn wide_numbers_are_read_back() {
    for n in [
        U256::zero(),
        U256::from_u64(42),
        U256 { limbs: [1, 2, 3, 4] },
        U256::max_value(),
    ] {
        assert_eq!(U256::from_text(&n.to_decimal()), Some(n));
    }
}

#[test]
fn notations_of_wide_numbers() {
    assert_eq!(U256::from_text("0x1F"), Some(U256::from_u64(31)));
    assert_eq!(U256::from_text("0X1f"), Some(U256::from_u64(31)));
    assert_eq!(U256::from_text("0o17"), Some(U256::from_u64(15)));
    assert_eq!(U256::from_text("0b101"), Some(U256::from_u64(5)));
    assert_eq!(U256::from_text("1_000"), Some(U256::from_u64(1000)));
    assert_eq!(U256::from_text("007"), Some(U256::from_u64(7)));
    assert_eq!(U256::from_text(""), Some(U256::zero()));
    assert_eq!(U256::from_text("0x"), Some(U256::zero()));
    assert_eq!(U256::from_text("_"), Some(U256::zero()));
    assert_eq!(U256::from_text("+1"), None);
    assert_eq!(U256::from_text("-1"), None);
    assert_eq!(U256::from_text("12a"), None);
    assert_eq!(U256::from_text("0b2"), None);
    assert_eq!(U256::from_text("0o8"), None);
    assert_eq!(U256::from_text("0xg"), None);
    assert_eq!(U256::from_text("0\u{e9}"), None);
    assert_eq!(
        U256::from_text(
            "115792089237316195423570985008687907853269984665640564039457584007913129639936"
        ),
        None
    );
}

#[test]
fn wide_numbers_compare_by_all_words() {
    assert!(U256 { limbs: [1, 2, 3, 4] } == U256 { limbs: [1, 2, 3, 4] });
    assert!(U256 { limbs: [1, 2, 3, 4] } != U256 { limbs: [1, 2, 3, 5] });
    assert!(U256 { limbs: [1, 2, 3, 4] } != U256 { limbs: [0, 2, 3, 4] });
}

#[test]
fn hashes_in_hexadecimal_notation() {
    let mut bytes = [0u8; 32];
    bytes[0] = 0xab;
    bytes[31] = 0x0f;
    let b = B256 { bytes };
    let s = b.to_hex();
    assert_eq!(s, format!("0xab{}0f", "00".repeat(30)));
    assert_eq!(B256::from_text(&s), Ok(b));
    assert_eq!(B256::from_text(&s[2..]), Ok(b));
    assert_eq!(B256::from_text(&s.to_uppercase()), Ok(b));
    assert_eq!(B256::zero().to_hex(), format!("0x{}", "00".repeat(32)));
}

#[test]
fn texts_that_are_no_hashes() {
    assert!(B256::from_text("").is_err());
    assert!(B256::from_text("0x").is_err());
    assert!(B256::from_text(&"0".repeat(63)).is_err());
    assert!(B256::from_text(&"0".repeat(66)).is_err());
    assert!(B256::from_text(&"g".repeat(64)).is_err());
    assert!(B256::from_text(&format!("0x0x{}", "0".repeat(62))).is_err());
    let message = B256::from_text("0x12").unwrap_err();
    assert!(!message.is_empty());
    assert_eq!(B256::from_text("0x12"), Err(message));
}

#[test]
fn hashes_compare_by_all_bytes() {
    let a = B256 { bytes: [7; 32] };
    let mut b = a;
    assert!(a == b);
    b.bytes[31] = 8;
    assert!(a != b);
}

#[test]
fn addresses_with_and_without_checksum() {
    let a = Address {
        bytes: [
            0x5a, 0xae, 0xb6, 0x05, 0x3f, 0x3e, 0x94, 0xc9, 0xb9, 0xa0, 0x9f, 0x33, 0x66, 0x94,
            0x35, 0xe7, 0xef, 0x1b, 0xea, 0xed,
        ],
    };
    assert_eq!(a.to_checksum(), "0x5aAeb6053F3E94C9b9A09f33669435E7Ef1BeAed");
    assert_eq!(a.to_hex(), "0x5aaeb6053f3e94c9b9a09f33669435e7ef1beaed");
    assert_eq!(a.to_checksum().to_lowercase(), a.to_hex());
    assert_eq!(Address::zero().to_checksum(), format!("0x{}", "00".repeat(20)));
    assert!(a == a);
    assert!(a != Address::zero());
}
