use blot::text::{decimal_text, join2, join3, magnitude_text};

#[test]
fn decimal_text_agrees_with_std() {
    for n in [0i64, 1, 9, 10, 11, 99, 100, 101, 25565, 1_000_000, i64::MAX, -1, -9, -10, -25565, i64::MIN + 1, i64::MIN] {
        assert_eq!(decimal_text(n), n.to_string());
    }
}

#[test]
fn decimal_text_exact_values() {
    assert_eq!(decimal_text(0), "0");
    assert_eq!(decimal_text(25565), "25565");
    assert_eq!(decimal_text(-42), "-42");
    assert_eq!(decimal_text(i64::MIN), "-9223372036854775808");
}

#[test]
fn magnitude_text_agrees_with_std() {
    for n in [0u64, 5, 10, 19, 20, 1234567890, u64::MAX] {
        assert_eq!(magnitude_text(n), n.to_string());
    }
    assert_eq!(magnitude_text(u64::MAX), "18446744073709551615");
}

#[test]
fn joins_concatenate() {
    assert_eq!(join2("ab", "cd"), "abcd");
    assert_eq!(join2("", ""), "");
    assert_eq!(join3("worlds", "/", "7"), "worlds/7");
}
