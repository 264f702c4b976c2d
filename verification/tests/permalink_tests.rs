use e6viu::permalink::{decimal_string, post_permalink};

#[test]
fn zero_is_one_digit() {
    assert_eq!(decimal_string(0), "0");
}

#[test]
fn single_digits() {
    assert_eq!(decimal_string(7), "7");
}

#[test]
fn multi_digit_numbers() {
    assert_eq!(decimal_string(42), "42");
    assert_eq!(decimal_string(1000), "1000");
    assert_eq!(decimal_string(987654321), "987654321");
}

#[test]
fn largest_identifier() {
    assert_eq!(decimal_string(u64::MAX), "18446744073709551615");
}

#[test]
fn permalink_carries_the_identifier() {
    assert_eq!(post_permalink(12345), "https://e621.net/posts/12345");
    assert_eq!(post_permalink(0), "https://e621.net/posts/0");
}
