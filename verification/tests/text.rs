use polymarket_client::text::{
    copy_pairs, decimal_text, is_empty, join2, push_pair, same_text, u64_of_text,
};

#[test]
fn decimal_notation_of_numbers() {
    assert_eq!(decimal_text(0), "0");
    assert_eq!(decimal_text(7), "7");
    assert_eq!(decimal_text(10), "10");
    assert_eq!(decimal_text(1234567890), "1234567890");
    assert_eq!(decimal_text(u64::MAX), "18446744073709551615");
}

#[test]
fn numbers_are_read_back() {
    for n in [0u64, 9, 10, 99, 1700000000, u64::MAX] {
        assert_eq!(u64_of_text(&decimal_text(n)), Ok(n));
    }
}

#[test]
fn number_texts() {
    assert_eq!(u64_of_text("007"), Ok(7));
    assert_eq!(u64_of_text("+12"), Ok(12));
    assert_eq!(u64_of_text(""), Err("cannot parse integer from empty string".to_owned()));
    assert_eq!(u64_of_text("+"), Err("invalid digit found in string".to_owned()));
    assert!(u64_of_text("-1").is_err());
    assert!(u64_of_text(" 1").is_err());
    assert!(u64_of_text("1_000").is_err());
    assert!(u64_of_text("0x10").is_err());
    assert_eq!(
        u64_of_text("18446744073709551616"),
        Err("number too large to fit in target type".to_owned())
    );
}

#[test]
fn text_operations() {
    assert!(same_text("LTE=", "LTE="));
    assert!(!same_text("LTE=", "LTE"));
    assert!(is_empty(""));
    assert!(!is_empty(" "));
    assert_eq!(join2("ab", "cd"), "abcd");
    let mut pairs = Vec::new();
    push_pair(&mut pairs, "a", "1".to_owned());
    push_pair(&mut pairs, "a", "2".to_owned());
    let copy = copy_pairs(&pairs);
    assert_eq!(
        copy,
        vec![("a".to_owned(), "1".to_owned()), ("a".to_owned(), "2".to_owned())]
    );
}
