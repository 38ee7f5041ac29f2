use polymarket_client::client::api::{
    APIError, ApiCreds, Headers, build_hmac_signature, create_l1_headers, create_l2_headers,
    l1_headers, l1_message, l2_headers, signature_of_code, signed_message,
};
use polymarket_client::encoding::Base64Error;
use polymarket_client::get_current_unix_time_secs;
use polymarket_client::primitives::{Address, U256};

const SECRET: &str = "--9zZWNyZXQga2V5";

fn creds() -> ApiCreds {
    ApiCreds {
        api_key: "key".to_owned(),
        secret: SECRET.to_owned(),
        passphrase: "pass".to_owned(),
    }
}

fn address() -> Address {
    Address {
        bytes: [
            0x5a, 0xae, 0xb6, 0x05, 0x3f, 0x3e, 0x94, 0xc9, 0xb9, 0xa0, 0x9f, 0x33, 0x66, 0x94,
            0x35, 0xe7, 0xef, 0x1b, 0xea, 0xed,
        ],
    }
}

fn pairs(headers: &Headers) -> Vec<(&str, &str)> {
    headers.entries.iter().map(|(k, v)| (k.as_str(), v.as_str())).collect()
}

#[test]
fn signatures_of_requests() {
    assert_eq!(
        build_hmac_signature(SECRET, 1700000000, "GET", "/data/orders", None).unwrap(),
        "OAtV2RfC-CEr9iH1JC5yfxz6p5-cuu95f7P9kfMv3_w="
    );
    assert_eq!(
        build_hmac_signature(
            SECRET,
            1700000000,
            "DELETE",
            "/cancel-market-orders",
            Some("{\"asset_id\":\"123\"}")
        )
        .unwrap(),
        "6coVyRL4I0c9UBnKk9PoKQA24iw6DBnw5HM7t4zPpvw="
    );
    assert_eq!(
        build_hmac_signature(SECRET, 1700000000, "POST", "/orders", Some("[]")).unwrap(),
        "eJ1k5yWxVqjBn4n6ARiN6yftYcZNiPDbqUgMvs1J108="
    );
}

#[test]
fn no_body_and_empty_body_sign_alike() {
    assert_eq!(
        build_hmac_signature(SECRET, 5, "GET", "/x", None).unwrap(),
        build_hmac_signature(SECRET, 5, "GET", "/x", Some("")).unwrap()
    );
}

fn decode_error(secret: &str) -> Base64Error {
    match build_hmac_signature(secret, 5, "GET", "/x", None) {
        Err(APIError::Base64DecodeError(e)) => e,
        other => panic!("{other:?}"),
    }
}

#[test]
fn secrets_without_a_key() {
    assert_eq!(decode_error("ab+/"), Base64Error::InvalidByte(2, b'+'));
    assert_eq!(decode_error("abcde"), Base64Error::InvalidLength(5));
    assert_eq!(decode_error("ab=="), Base64Error::InvalidLastSymbol(1, b'b'));
    assert_eq!(decode_error("YQ"), Base64Error::InvalidPadding);
    assert!(build_hmac_signature("YQ==", 5, "GET", "/x", None).is_ok());
    assert!(build_hmac_signature("", 5, "GET", "/x", None).is_ok());
    assert!(matches!(
        l2_headers(
            address(),
            &ApiCreds { api_key: String::new(), secret: "YQ".to_owned(), passphrase: String::new() },
            5,
            "GET",
            "/x",
            None
        ),
        Err(APIError::Base64DecodeError(Base64Error::InvalidPadding))
    ));
}

#[test]
fn headers_signed_with_a_key() {
    let headers = l2_headers(address(), &creds(), 1700000000, "GET", "/data/orders", None).unwrap();
    assert_eq!(
        pairs(&headers),
        vec![
            ("poly_address", "0x5aaeb6053f3e94c9b9a09f33669435e7ef1beaed"),
            ("poly_signature", "OAtV2RfC-CEr9iH1JC5yfxz6p5-cuu95f7P9kfMv3_w="),
            ("poly_timestamp", "1700000000"),
            ("poly_api_key", "key"),
            ("poly_passphrase", "pass"),
        ]
    );
}

#[test]
fn headers_signed_now() {
    let before = get_current_unix_time_secs().unwrap();
    let headers = create_l2_headers(address(), &creds(), "POST", "/orders", Some("[]"))
        .unwrap()
        .unwrap();
    let after = get_current_unix_time_secs().unwrap();
    let timestamp: u64 = headers.entries[2].1.parse().unwrap();
    assert!(before <= timestamp && timestamp <= after);
    assert_eq!(
        headers.entries[1].1,
        build_hmac_signature(SECRET, timestamp, "POST", "/orders", Some("[]")).unwrap()
    );
}

#[test]
fn headers_signed_by_a_wallet() {
    let headers = create_l1_headers(address(), 17, None, &[0xab; 65]);
    let signature = format!("0x{}", "ab".repeat(65));
    assert_eq!(
        pairs(&headers),
        vec![
            ("poly_address", "0x5aAeb6053F3E94C9b9A09f33669435E7Ef1BeAed"),
            ("poly_signature", signature.as_str()),
            ("poly_timestamp", "17"),
            ("poly_nonce", "0"),
        ]
    );
    let headers = create_l1_headers(address(), 17, Some(U256::from_u64(12)), &[0; 65]);
    assert_eq!(headers.entries[3].1, "12");
}

#[test]
fn what_a_wallet_signs() {
    let data = l1_message(address(), 17, None);
    assert_eq!(data.message.timestamp, "17");
    assert_eq!(data.message.nonce, U256::zero());
    assert_eq!(data.message.address, address());
    let data = l1_message(address(), 17, Some(U256::from_u64(12)));
    assert_eq!(data.message.nonce, U256::from_u64(12));
}

#[test]
fn setting_headers() {
    let mut headers = Headers::new();
    headers.insert("a", "1".to_owned());
    headers.insert("b", "2".to_owned());
    assert_eq!(pairs(&headers), vec![("a", "1"), ("b", "2")]);
    headers.insert("a", "3".to_owned());
    assert_eq!(pairs(&headers), vec![("a", "3"), ("b", "2")]);
    headers.insert("c", "4".to_owned());
    assert_eq!(pairs(&headers), vec![("a", "3"), ("b", "2"), ("c", "4")]);
}

#[test]
fn credentials_are_copied_whole() {
    let copy = creds().clone();
    assert_eq!(
        (copy.api_key.as_str(), copy.secret.as_str(), copy.passphrase.as_str()),
        ("key", SECRET, "pass")
    );
}

#[test]
fn wallet_headers_say_what_was_signed() {
    let nonce = Some(U256::from_u64(4));
    let data = l1_message(address(), 99, nonce);
    let headers = create_l1_headers(address(), 99, nonce, &[0; 65]);
    assert_eq!(headers.entries[0].1, data.message.address.to_checksum());
    assert_eq!(headers.entries[2].1, data.message.timestamp);
    assert_eq!(headers.entries[3].1, data.message.nonce.to_decimal());
}

#[test]
fn keys_that_differ_sign_differently() {
    let sign = |secret: &str| build_hmac_signature(secret, 5, "GET", "/x", None).unwrap();
    assert_ne!(sign("YQ=="), sign("Yg=="));
    assert_ne!(sign("YWE="), sign("YQ=="));
    assert_ne!(sign("-___"), sign("____"));
}

#[test]
fn texts_that_are_signed() {
    assert_eq!(signed_message(17, "GET", "/data/orders", None), "17GET/data/orders");
    assert_eq!(signed_message(17, "POST", "/orders", Some("[1]")), "17POST/orders[1]");
}

#[test]
fn texts_of_codes() {
    assert_eq!(signature_of_code(&[0; 32]), format!("{}=", "A".repeat(43)));
    assert_eq!(signature_of_code(&[0xff; 32]), format!("{}8=", "_".repeat(42)));
}

#[test]
fn wallet_headers_with_a_given_address() {
    let headers = l1_headers("0xA".to_owned(), 3, None, &[0; 65]);
    assert_eq!(pairs(&headers)[0], ("poly_address", "0xA"));
    assert_eq!(pairs(&headers)[2], ("poly_timestamp", "3"));
}
