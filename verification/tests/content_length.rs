use http_bridge::content_length::{content_length_bytes, parse_content_length};

#[test]
fn parses_plain_number() {
    assert_eq!(parse_content_length(b"42"), Some(42));
}

#[test]
fn parses_zero() {
    assert_eq!(parse_content_length(b"0"), Some(0));
}

#[test]
fn parses_leading_plus() {
    assert_eq!(parse_content_length(b"+7"), Some(7));
}

#[test]
fn parses_leading_zeros() {
    assert_eq!(parse_content_length(b"007"), Some(7));
}

#[test]
fn rejects_empty_value() {
    assert_eq!(parse_content_length(b""), None);
}

#[test]
fn rejects_bare_sign() {
    assert_eq!(parse_content_length(b"+"), None);
}

#[test]
fn rejects_negative() {
    assert_eq!(parse_content_length(b"-1"), None);
}

#[test]
fn rejects_trailing_garbage() {
    assert_eq!(parse_content_length(b"12a"), None);
}

#[test]
fn rejects_inner_space() {
    assert_eq!(parse_content_length(b" 42"), None);
    assert_eq!(parse_content_length(b"4 2"), None);
}

#[test]
fn parses_largest_value() {
    assert_eq!(parse_content_length(b"18446744073709551615"), Some(u64::MAX));
}

#[test]
fn rejects_value_beyond_u64() {
    assert_eq!(parse_content_length(b"18446744073709551616"), None);
    assert_eq!(parse_content_length(b"99999999999999999999999999"), None);
}

#[test]
fn renders_zero() {
    assert_eq!(content_length_bytes(0), b"0".to_vec());
}

#[test]
fn renders_plain_number() {
    assert_eq!(content_length_bytes(42), b"42".to_vec());
}

#[test]
fn renders_largest_value() {
    assert_eq!(content_length_bytes(u64::MAX), b"18446744073709551615".to_vec());
}

#[test]
fn rendering_then_parsing_is_identity() {
    for n in [0u64, 1, 9, 10, 99, 100, 4096, 1 << 33, u64::MAX] {
        let rendered = content_length_bytes(n);
        assert_eq!(parse_content_length(&rendered), Some(n));
    }
}
