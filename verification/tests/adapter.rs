//! Tests of the poll adapter, the completion token and the text helpers.
use linebridge::poll::{run_poll, PollConfig, PollOutcome};
use linebridge::token::{CompletionToken, TokenState};
use linebridge::text::{dec_chars, dec_string, find_char, parse_i32, parse_u64, str_eq};

#[test]
fn timeout_lands_within_one_interval_of_the_deadline() {
    let cfg = PollConfig::new(5000, 50);
    match run_poll(&cfg, None) {
        PollOutcome::TimedOut { elapsed_ms } => {
            assert!(elapsed_ms >= 5000);
            assert!(elapsed_ms < 5050);
        },
        PollOutcome::Completed { .. } => panic!("a silent callback cannot complete"),
    }
    // A deadline that is no multiple of the interval still lands in the
    // window.
    let cfg = PollConfig::new(130, 60);
    match run_poll(&cfg, None) {
        PollOutcome::TimedOut { elapsed_ms } => assert_eq!(elapsed_ms, 180),
        PollOutcome::Completed { .. } => panic!("a silent callback cannot complete"),
    }
}

#[test]
fn completion_is_seen_at_the_next_pump() {
    let cfg = PollConfig::new(5000, 50);
    match run_poll(&cfg, Some(120)) {
        PollOutcome::Completed { elapsed_ms } => assert_eq!(elapsed_ms, 150),
        PollOutcome::TimedOut { .. } => panic!("the callback fired in time"),
    }
    match run_poll(&cfg, Some(0)) {
        PollOutcome::Completed { elapsed_ms } => assert_eq!(elapsed_ms, 0),
        PollOutcome::TimedOut { .. } => panic!("the callback fired at once"),
    }
}

#[test]
fn late_fire_is_a_timeout() {
    let cfg = PollConfig::new(5000, 50);
    let late = run_poll(&cfg, Some(5000));
    let never = run_poll(&cfg, None);
    match (late, never) {
        (PollOutcome::TimedOut { elapsed_ms: a }, PollOutcome::TimedOut { elapsed_ms: b }) => {
            assert_eq!(a, b);
        },
        _ => panic!("a fire at the deadline must not be seen"),
    }
}

#[test]
fn abandoned_token_takes_a_late_write_safely() {
    let mut t: CompletionToken<u32> = CompletionToken::new();
    assert!(matches!(t.state, TokenState::Pending));
    t.abandon();
    assert!(matches!(t.state, TokenState::Abandoned));
    // The late callback lands; nothing may read it.
    t.complete(7);
    assert!(matches!(t.state, TokenState::CompletedLate));
    // Even another write leaves it unreadable.
    t.complete(8);
    assert!(matches!(t.state, TokenState::CompletedLate));
}

#[test]
fn completed_token_is_read_once_sealed() {
    let mut t: CompletionToken<u32> = CompletionToken::new();
    t.complete(7);
    assert!(matches!(t.state, TokenState::Completed));
    assert_eq!(*t.read(), 7);
    // A second write does not overwrite a completed token.
    t.complete(9);
    assert_eq!(*t.read(), 7);
    // Abandoning after completion changes nothing.
    t.abandon();
    assert_eq!(*t.read(), 7);
}

#[test]
fn decimal_rendering() {
    let s: String = dec_chars(0).iter().collect();
    assert_eq!(s, "0");
    let s: String = dec_chars(18446744073709551615).iter().collect();
    assert_eq!(s, "18446744073709551615");
    assert_eq!(dec_string(907), "907");
}

#[test]
fn u64_parsing_follows_the_standard_reader() {
    assert_eq!(parse_u64("0"), Some(0));
    assert_eq!(parse_u64("+123"), Some(123));
    assert_eq!(parse_u64("0009"), Some(9));
    assert_eq!(parse_u64("18446744073709551615"), Some(18446744073709551615));
    assert_eq!(parse_u64("18446744073709551616"), None);
    assert_eq!(parse_u64(""), None);
    assert_eq!(parse_u64("+"), None);
    assert_eq!(parse_u64("-1"), None);
    assert_eq!(parse_u64("12a"), None);
    assert_eq!(parse_u64(" 12"), None);
}

#[test]
fn i32_parsing_follows_the_standard_reader() {
    assert_eq!(parse_i32("2147483647"), Some(2147483647));
    assert_eq!(parse_i32("2147483648"), None);
    assert_eq!(parse_i32("-2147483648"), Some(-2147483648));
    assert_eq!(parse_i32("-2147483649"), None);
    assert_eq!(parse_i32("+7"), Some(7));
    assert_eq!(parse_i32("-"), None);
    assert_eq!(parse_i32("x"), None);
}

#[test]
fn string_helpers() {
    assert!(str_eq("abc", "abc"));
    assert!(!str_eq("abc", "abd"));
    assert!(!str_eq("abc", "ab"));
    assert!(str_eq("", ""));
    assert_eq!(find_char("type=1:tok", ':'), Some(6));
    assert_eq!(find_char("no colon", ':'), None);
}
