use trade_sdk::signing::sign;
use trade_sdk::signing::signature_from;
use trade_sdk::text::chars_of;
use trade_sdk::text::decimal;
use trade_sdk::text::find_from;
use trade_sdk::text::join_texts;
use trade_sdk::text::json_array;
use trade_sdk::text::sorts_before;

#[test]
fn decimal_writes_digits_and_sign() {
    assert_eq!(decimal(0), "0");
    assert_eq!(decimal(7), "7");
    assert_eq!(decimal(10), "10");
    assert_eq!(decimal(5000), "5000");
    assert_eq!(decimal(-1), "-1");
    assert_eq!(decimal(-120), "-120");
    assert_eq!(decimal(1700000000000), "1700000000000");
}

#[test]
fn decimal_covers_the_whole_range() {
    assert_eq!(decimal(i128::MAX), i128::MAX.to_string());
    assert_eq!(decimal(i128::MIN), i128::MIN.to_string());
    assert_eq!(decimal(i64::MIN as i128), i64::MIN.to_string());
    assert_eq!(decimal(u64::MAX as i128), u64::MAX.to_string());
}

#[test]
fn names_sort_by_their_bytes() {
    assert!(sorts_before("a", "b"));
    assert!(!sorts_before("b", "a"));
    assert!(!sorts_before("a", "a"));
    assert!(sorts_before("", "a"));
    assert!(!sorts_before("a", ""));
    assert!(!sorts_before("", ""));
    assert!(sorts_before("ab", "abc"));
    assert!(sorts_before("Z", "a"));
    assert!(sorts_before("orderId", "orderLinkId"));
    assert!(sorts_before("z", "é"));
    for (a, b) in [("recvWindow", "symbol"), ("symbol", "timestamp"), ("B", "a"), ("a1", "a2")] {
        assert_eq!(sorts_before(a, b), a < b);
        assert_eq!(sorts_before(b, a), b < a);
    }
}

#[test]
fn find_from_gives_the_first_place() {
    let text = chars_of("a=1&b=2&a=3");
    assert_eq!(text.len(), 11);
    assert_eq!(find_from(&text, &chars_of("a="), 0), Some(0));
    assert_eq!(find_from(&text, &chars_of("a="), 1), Some(8));
    assert_eq!(find_from(&text, &chars_of("&"), 0), Some(3));
    assert_eq!(find_from(&text, &chars_of("&"), 4), Some(7));
    assert_eq!(find_from(&text, &chars_of("&"), 8), None);
    assert_eq!(find_from(&text, &chars_of("c="), 0), None);
    assert_eq!(find_from(&text, &chars_of("a=3"), 0), Some(8));
    assert_eq!(find_from(&text, &chars_of("a=1&b=2&a=3x"), 0), None);
    assert_eq!(find_from(&text, &chars_of(""), 11), Some(11));
    assert_eq!(find_from(&text, &chars_of(""), 12), None);
}

#[test]
fn chars_of_counts_characters_not_bytes() {
    assert_eq!(chars_of("é=1"), vec!['é', '=', '1']);
    assert_eq!(chars_of(""), Vec::<char>::new());
}

#[test]
fn join_puts_the_separator_between() {
    let none: Vec<String> = vec![];
    assert_eq!(join_texts(&none, ","), "");
    assert_eq!(join_texts(&vec!["a".to_string()], ","), "a");
    assert_eq!(join_texts(&vec!["a".to_string(), "b".to_string(), "".to_string()], ", "), "a, b, ");
}

#[test]
fn json_array_has_no_spaces() {
    let none: Vec<String> = vec![];
    assert_eq!(json_array(&none), "[]");
    assert_eq!(json_array(&vec!["1".to_string(), "\"x\"".to_string()]), "[1,\"x\"]");
}

#[test]
fn sign_is_hmac_sha256_in_lower_case_hex() {
    assert_eq!(
        sign("key", "The quick brown fox jumps over the lazy dog").unwrap(),
        "f7bc83f430538424b13298e6aa6fb143ef4d59a14946175997479dbc2d1a3cd8"
    );
    assert_ne!(sign("key", "a").unwrap(), sign("key", "b").unwrap());
    assert_ne!(sign("key", "a").unwrap(), sign("kez", "a").unwrap());
    assert_eq!(sign("", "").unwrap().len(), 64);
}

#[test]
fn signature_from_writes_each_byte_as_two_digits() {
    assert_eq!(signature_from(Some(vec![0x00, 0x0f, 0xa0, 0xff, 0x10])).unwrap(), "000fa0ff10");
    assert_eq!(signature_from(Some(vec![])).unwrap(), "");
    let refused = signature_from(None).unwrap_err();
    assert_eq!(refused.describe(), "Authentication error: Invalid API secret");
}
