use balto_bot::rabbit::{check_status, ConnectionStatus};
use balto_bot::text::{eq_ignore_ascii_case, find_char, format_i64, format_u64, parse_i64, same_text};

#[test]
fn parses_decimal_i64_like_std() {
    let cases = ["0", "42", "-42", "+7", "007", "-0", "9223372036854775807", "-9223372036854775808",
        "9223372036854775808", "-9223372036854775809", "", "-", "+", "12a", " 1", "1 ", "--1", "+-1",
        "99999999999999999999999"];
    for c in cases {
        assert_eq!(parse_i64(c), c.parse::<i64>().ok(), "case {:?}", c);
    }
}

#[test]
fn formats_numbers_like_display() {
    for n in [0i64, 5, -5, 10, 1234567, -100123, i64::MAX, i64::MIN] {
        assert_eq!(format_i64(n), n.to_string());
        assert_eq!(parse_i64(&format_i64(n)), Some(n));
    }
    for n in [0u64, 9, 4242, u64::MAX] {
        assert_eq!(format_u64(n), n.to_string());
    }
}

#[test]
fn compares_ignoring_ascii_case() {
    assert!(eq_ignore_ascii_case("MyBot", "mybot"));
    assert!(eq_ignore_ascii_case("", ""));
    assert!(!eq_ignore_ascii_case("mybot", "mybot2"));
    assert!(eq_ignore_ascii_case("ÄbC", "Äbc"));
    assert!(!eq_ignore_ascii_case("Ä", "ä"));
    assert!(same_text("abc", "abc"));
    assert!(!same_text("abc", "abd"));
}

#[test]
fn finds_the_first_occurrence() {
    assert_eq!(find_char("a b c", ' '), 1);
    assert_eq!(find_char("abc", ' '), 3);
    assert_eq!(find_char("é@x", '@'), 1);
}

#[test]
fn usable_connection_states() {
    assert!(check_status(ConnectionStatus::Initial));
    assert!(check_status(ConnectionStatus::Connecting));
    assert!(check_status(ConnectionStatus::Connected));
    assert!(!check_status(ConnectionStatus::Closing));
    assert!(!check_status(ConnectionStatus::Closed));
    assert!(!check_status(ConnectionStatus::Error));
}

#[test]
fn lapin_errors_become_rabbit_errors() {
    let e = balto_bot::rabbit::RabbitClientError::from_lapin(lapin::Error::ChannelsLimitReached);
    assert!(matches!(e, balto_bot::rabbit::RabbitClientError::Rabbit(lapin::Error::ChannelsLimitReached)));
}
