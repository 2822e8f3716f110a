use newrelic_exporter::{parse_retry_after, Outcome, ResponseClass};

fn status(code: u16) -> Outcome {
    Outcome::Status { code, retry_after: None }
}

#[test]
fn parse_retry_after_reads_digits() {
    assert_eq!(parse_retry_after(b"3"), Some(3));
    assert_eq!(parse_retry_after(b"0"), Some(0));
    assert_eq!(parse_retry_after(b"120"), Some(120));
    assert_eq!(parse_retry_after(b"007"), Some(7));
}

#[test]
fn parse_retry_after_rejects_what_is_not_a_number() {
    assert_eq!(parse_retry_after(b""), None);
    assert_eq!(parse_retry_after(b"abc"), None);
    assert_eq!(parse_retry_after(b"+3"), None);
    assert_eq!(parse_retry_after(b"-3"), None);
    assert_eq!(parse_retry_after(b" 3"), None);
    assert_eq!(parse_retry_after(b"3 "), None);
    assert_eq!(parse_retry_after(b"3.5"), None);
    assert_eq!(parse_retry_after(b"3s"), None);
    assert_eq!(parse_retry_after(b"Wed, 21 Oct 2015 07:28:00 GMT"), None);
}

#[test]
fn parse_retry_after_at_the_limit_of_64_bits() {
    assert_eq!(parse_retry_after(b"18446744073709551615"), Some(u64::MAX));
    assert_eq!(parse_retry_after(b"18446744073709551616"), None);
    assert_eq!(parse_retry_after(b"99999999999999999999"), None);
    assert_eq!(parse_retry_after(b"184467440737095516150"), None);
    assert_eq!(parse_retry_after(b"00018446744073709551615"), Some(u64::MAX));
}

#[test]
fn classify_success() {
    for code in [200u16, 201, 202, 204, 299] {
        assert!(matches!(status(code).classify(), ResponseClass::Accepted));
    }
}

#[test]
fn classify_permanent_rejections() {
    for code in [400u16, 401, 403, 404, 405, 409, 410, 411] {
        assert!(matches!(status(code).classify(), ResponseClass::PermanentlyRejected));
    }
}

#[test]
fn classify_oversized() {
    assert!(matches!(status(413).classify(), ResponseClass::Oversized));
}

#[test]
fn classify_rate_limited_with_delay() {
    let outcome = Outcome::Status { code: 429, retry_after: Some(b"3".to_vec()) };
    assert!(matches!(outcome.classify(), ResponseClass::RateLimited { retry_after: Some(3) }));
}

#[test]
fn classify_rate_limited_without_usable_delay() {
    assert!(matches!(status(429).classify(), ResponseClass::RateLimited { retry_after: None }));
    let outcome = Outcome::Status { code: 429, retry_after: Some(b"soon".to_vec()) };
    assert!(matches!(outcome.classify(), ResponseClass::RateLimited { retry_after: None }));
}

#[test]
fn classify_everything_else_as_transient() {
    for code in [100u16, 199, 300, 301, 402, 406, 408, 412, 414, 428, 430, 500, 502, 503, 599] {
        assert!(matches!(status(code).classify(), ResponseClass::Transient));
    }
    assert!(matches!(Outcome::TransportError.classify(), ResponseClass::Transient));
}

#[test]
fn retry_after_is_read_only_on_rate_limit() {
    let outcome = Outcome::Status { code: 503, retry_after: Some(b"3".to_vec()) };
    assert!(matches!(outcome.classify(), ResponseClass::Transient));
    let outcome = Outcome::Status { code: 200, retry_after: Some(b"3".to_vec()) };
    assert!(matches!(outcome.classify(), ResponseClass::Accepted));
}
