use csaf_rs::text::{append_decimal, decimal_string};

#[test]
fn decimal_text_of_single_digits() {
    let expected = ["0", "1", "2", "3", "4", "5", "6", "7", "8", "9"];
    for (n, text) in expected.iter().enumerate() {
        assert_eq!(decimal_string(n), *text);
    }
}

#[test]
fn decimal_text_of_longer_numbers() {
    assert_eq!(decimal_string(10), "10");
    assert_eq!(decimal_string(11), "11");
    assert_eq!(decimal_string(99), "99");
    assert_eq!(decimal_string(100), "100");
    assert_eq!(decimal_string(101), "101");
    assert_eq!(decimal_string(1_234_567_890), "1234567890");
    assert_eq!(decimal_string(4_294_967_295), "4294967295");
    assert_eq!(decimal_string(usize::MAX), usize::MAX.to_string());
}

#[test]
fn decimal_text_agrees_with_std() {
    for n in (0..5000).chain((0..60).map(|shift| 1usize << shift)) {
        assert_eq!(decimal_string(n), n.to_string());
    }
}

#[test]
fn append_decimal_keeps_what_was_there() {
    let mut text = String::from("/vulnerabilities/");
    append_decimal(&mut text, 0);
    assert_eq!(text, "/vulnerabilities/0");
    append_decimal(&mut text, 42);
    assert_eq!(text, "/vulnerabilities/042");
}
