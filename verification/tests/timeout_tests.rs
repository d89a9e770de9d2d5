use tls_utils::timeout::{handshake_timeout_secs, parse_u64, DEFAULT_HANDSHAKE_TIMEOUT_SECS};

#[test]
fn default_timeout_is_three_seconds() {
    assert_eq!(DEFAULT_HANDSHAKE_TIMEOUT_SECS, 3);
    assert_eq!(handshake_timeout_secs(None), 3);
}

#[test]
fn configured_timeout_is_used() {
    assert_eq!(handshake_timeout_secs(Some("10")), 10);
    assert_eq!(handshake_timeout_secs(Some("0")), 0);
    assert_eq!(handshake_timeout_secs(Some("+42")), 42);
}

#[test]
fn unreadable_timeout_falls_back_to_default() {
    assert_eq!(handshake_timeout_secs(Some("")), 3);
    assert_eq!(handshake_timeout_secs(Some("ten")), 3);
    assert_eq!(handshake_timeout_secs(Some(" 5")), 3);
    assert_eq!(handshake_timeout_secs(Some("5s")), 3);
    assert_eq!(handshake_timeout_secs(Some("-1")), 3);
    assert_eq!(handshake_timeout_secs(Some("18446744073709551616")), 3);
}

#[test]
fn parse_u64_matches_std() {
    let samples = [
        "", "+", "-", "0", "00", "007", "+9", "-0", "1 ", " 1", "12a", "٣", "18446744073709551615",
        "18446744073709551616", "99999999999999999999999", "+18446744073709551615", "++1",
    ];
    for text in samples {
        assert_eq!(parse_u64(text), text.parse::<u64>().ok(), "text {:?}", text);
    }
}

#[test]
fn written_seconds_are_read_back() {
    for secs in [0u64, 1, 9, 10, 99, 100, 12345, u64::MAX - 1, u64::MAX] {
        assert_eq!(parse_u64(&secs.to_string()), Some(secs));
        assert_eq!(parse_u64(&format!("+{}", secs)), Some(secs));
        assert_eq!(handshake_timeout_secs(Some(&secs.to_string())), secs);
    }
}
