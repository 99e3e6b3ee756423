use ethportal_api::utils::bytes::hex_decode;
use trin_beacon::reply::Payload;
use trin_beacon::store::local_content;
use trin_beacon::text::{bool_str, decimal, digit_str, failure};

#[test]
fn decimal_prints_single_digits() {
    assert_eq!(decimal(0), "0");
    assert_eq!(decimal(7), "7");
    assert_eq!(decimal(9), "9");
}

#[test]
fn decimal_prints_without_leading_zeros() {
    assert_eq!(decimal(10), "10");
    assert_eq!(decimal(42), "42");
    assert_eq!(decimal(1000), "1000");
    assert_eq!(decimal(65535), "65535");
}

#[test]
fn decimal_prints_the_largest_number() {
    assert_eq!(decimal(u64::MAX), "18446744073709551615");
}

#[test]
fn decimal_agrees_with_the_standard_formatter() {
    let mut n: u64 = 1;
    for _ in 0..64 {
        assert_eq!(decimal(n), format!("{}", n));
        assert_eq!(decimal(n - 1), format!("{:?}", n - 1));
        n = n.wrapping_mul(2);
        if n == 0 {
            n = 3;
        }
    }
}

#[test]
fn digits_are_lower_case() {
    let digits: Vec<&str> = (0u8..16).map(digit_str).collect();
    assert_eq!(digits.concat(), "0123456789abcdef");
}

#[test]
fn booleans_print_as_words() {
    assert_eq!(bool_str(true), "true");
    assert_eq!(bool_str(false), "false");
}

#[test]
fn failure_puts_the_prefix_first() {
    assert_eq!(failure("Ping request timeout: ", "Timeout"), "Ping request timeout: Timeout");
    assert_eq!(failure("", ""), "");
}

#[test]
fn hex_is_lower_case_with_prefix_and_two_digits_per_byte() {
    let reply = local_content("k", Ok(Some(vec![0x00, 0x0f, 0xa0, 0xff, 0xB0, 0x0F])));
    assert_eq!(reply, Ok(Payload::Text("0x000fa0ffb00f".to_string())));
}

#[test]
fn hex_of_any_byte_parses_back() {
    let all: Vec<u8> = (0u8..=255).collect();
    match local_content("k", Ok(Some(all.clone()))) {
        Ok(Payload::Text(text)) => {
            assert_eq!(text.len(), 2 + 2 * 256);
            assert_eq!(hex_decode(&text).unwrap(), all);
        }
        other => panic!("unexpected reply {:?}", other),
    }
}

#[test]
fn hex_of_short_payloads_parses_back() {
    for bytes in [vec![], vec![0u8], vec![0xde, 0xad], vec![1, 2, 3]] {
        match local_content("k", Ok(Some(bytes.clone()))) {
            Ok(Payload::Text(text)) => assert_eq!(hex_decode(&text).unwrap(), bytes),
            other => panic!("unexpected reply {:?}", other),
        }
    }
}
