use chat_guard::challenge::make_challenge;
use chat_guard::filter::find_substring;
use chat_guard::filter::message_violates;
use chat_guard::parse::parse_i32;
use chat_guard::registry::Registry;
use chat_guard::workflow::register_pending;

fn bytes(s: &str) -> Vec<u8> {
    s.as_bytes().to_vec()
}

#[test]
fn parse_plain_and_signed() {
    assert_eq!(parse_i32(&bytes("7")), Some(7));
    assert_eq!(parse_i32(&bytes("+5")), Some(5));
    assert_eq!(parse_i32(&bytes("-12")), Some(-12));
    assert_eq!(parse_i32(&bytes("007")), Some(7));
    assert_eq!(parse_i32(&bytes("0")), Some(0));
}

#[test]
fn parse_agrees_with_std() {
    let cases = [
        "7", "+5", "-12", "007", "", " 7", "7 ", "--1", "++1", "+", "-", "abc", "12a", "a12",
        "2147483647", "2147483648", "-2147483648", "-2147483649", "0000000000000000000007",
        "99999999999999999999", "-99999999999999999999", "4294967303", "18446744073709551623",
    ];
    for s in cases {
        assert_eq!(parse_i32(&bytes(s)), s.parse::<i32>().ok(), "case {:?}", s);
    }
}

#[test]
fn parse_rejects_junk() {
    assert_eq!(parse_i32(&bytes("")), None);
    assert_eq!(parse_i32(&bytes("seven")), None);
    assert_eq!(parse_i32(&bytes("7.0")), None);
    assert_eq!(parse_i32(&bytes("广告")), None);
}

#[test]
fn parse_boundaries() {
    assert_eq!(parse_i32(&bytes("2147483647")), Some(i32::MAX));
    assert_eq!(parse_i32(&bytes("-2147483648")), Some(i32::MIN));
    assert_eq!(parse_i32(&bytes("2147483648")), None);
    assert_eq!(parse_i32(&bytes("-2147483649")), None);
}

#[test]
fn substring_search_basics() {
    assert!(find_substring(&bytes("hello world"), &bytes("o wo")));
    assert!(find_substring(&bytes("hello"), &bytes("hello")));
    assert!(find_substring(&bytes("hello"), &bytes("")));
    assert!(!find_substring(&bytes("hello"), &bytes("world")));
    assert!(!find_substring(&bytes("hi"), &bytes("hello")));
    assert!(find_substring(&bytes("aaab"), &bytes("aab")));
}

// A message holding a banned substring is flagged whatever surrounds it.
#[test]
fn banned_words_are_flagged() {
    assert!(message_violates(&bytes("广告")));
    assert!(message_violates(&bytes("这是垃圾消息")));
    assert!(message_violates(&bytes("点击这个恶意链接吧")));
    assert!(message_violates(&bytes("some 广告 inside")));
}

#[test]
fn clean_messages_pass() {
    assert!(!message_violates(&bytes("hello world")));
    assert!(!message_violates(&bytes("")));
    assert!(!message_violates(&bytes("7")));
    assert!(!message_violates(&bytes("你好，欢迎加入")));
}

// The filter is independent of verification state: the same text is flagged
// whether or not its sender is under challenge.
#[test]
fn filter_ignores_verification_state() {
    let text = bytes("垃圾");
    assert!(message_violates(&text));

    let mut reg = Registry::new();
    register_pending(&mut reg, 42, make_challenge(2, 2), -5);
    assert!(message_violates(&text));
    assert!(reg.contains(42));
}
