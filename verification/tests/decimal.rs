use htmx_todo::decimal::{parse_id, push_decimal};

fn decimal(n: u128) -> String {
    let mut out = String::new();
    push_decimal(&mut out, n);
    out
}

#[test]
fn decimal_of_small_numbers() {
    assert_eq!(decimal(0), "0");
    assert_eq!(decimal(7), "7");
    assert_eq!(decimal(9), "9");
    assert_eq!(decimal(10), "10");
    assert_eq!(decimal(42), "42");
    assert_eq!(decimal(1000), "1000");
    assert_eq!(decimal(1234567890), "1234567890");
}

#[test]
fn decimal_of_the_largest_number() {
    assert_eq!(decimal(u128::MAX), "340282366920938463463374607431768211455");
}

#[test]
fn decimal_appends_to_what_is_there() {
    let mut out = String::from("todo-");
    push_decimal(&mut out, 305);
    assert_eq!(out, "todo-305");
}

#[test]
fn decimal_agrees_with_std() {
    let samples: [u128; 8] = [0, 1, 9, 10, 99, 100, 18446744073709551616, u128::MAX - 1];
    for n in samples {
        assert_eq!(decimal(n), format!("{}", n));
    }
}

#[test]
fn parse_reads_plain_digits() {
    assert_eq!(parse_id("0"), Some(0));
    assert_eq!(parse_id("7"), Some(7));
    assert_eq!(parse_id("42"), Some(42));
    assert_eq!(parse_id("999"), Some(999));
}

#[test]
fn parse_ignores_leading_zeros() {
    assert_eq!(parse_id("007"), Some(7));
    assert_eq!(parse_id("0000000000000000000000000000000000000000000000001"), Some(1));
}

#[test]
fn parse_accepts_one_leading_plus() {
    assert_eq!(parse_id("+5"), Some(5));
    assert_eq!(parse_id("+"), None);
    assert_eq!(parse_id("++5"), None);
    assert_eq!(parse_id("5+"), None);
}

#[test]
fn parse_rejects_what_is_no_number() {
    assert_eq!(parse_id(""), None);
    assert_eq!(parse_id("abc"), None);
    assert_eq!(parse_id("-1"), None);
    assert_eq!(parse_id(" 1"), None);
    assert_eq!(parse_id("1 "), None);
    assert_eq!(parse_id("1_000"), None);
    assert_eq!(parse_id("12a"), None);
    assert_eq!(parse_id("1.5"), None);
    assert_eq!(parse_id("\u{0661}"), None);
}

#[test]
fn parse_reads_up_to_the_largest_number() {
    assert_eq!(parse_id("340282366920938463463374607431768211455"), Some(u128::MAX));
    assert_eq!(parse_id("340282366920938463463374607431768211456"), None);
    assert_eq!(parse_id("3402823669209384634633746074317682114550"), None);
    assert_eq!(parse_id("999999999999999999999999999999999999999"), None);
}

#[test]
fn parse_agrees_with_std() {
    let samples = [
        "", "+", "0", "+0", "00", "12", "+12", "-12", "1e3", "0x10", " 7", "7\n",
        "340282366920938463463374607431768211455", "340282366920938463463374607431768211456",
    ];
    for text in samples {
        assert_eq!(parse_id(text), text.parse::<u128>().ok(), "for {:?}", text);
    }
}

#[test]
fn parse_reads_back_what_decimal_wrote() {
    let samples: [u128; 6] = [0, 5, 10, 12345, 1 << 64, u128::MAX];
    for n in samples {
        assert_eq!(parse_id(&decimal(n)), Some(n));
    }
}
