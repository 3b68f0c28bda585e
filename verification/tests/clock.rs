use chrono::{DateTime, SecondsFormat};
use std::time::{Duration, Instant};
use utc_timestamp::clock::{get_current_time_iso, get_current_timestamp};
use utc_timestamp::text::parse_rfc3339_millis;

fn has_layout(s: &str) -> bool {
    let b = s.as_bytes();
    b.len() == 24
        && b.iter().enumerate().all(|(i, c)| match i {
            4 | 7 => *c == b'-',
            10 => *c == b'T',
            13 | 16 => *c == b':',
            19 => *c == b'.',
            23 => *c == b'Z',
            _ => c.is_ascii_digit(),
        })
}

#[test]
fn current_time_has_the_fixed_layout() {
    let s = get_current_time_iso();
    assert!(has_layout(&s), "{}", s);
    let other = get_current_timestamp();
    assert!(has_layout(&other), "{}", other);
}

#[test]
fn current_time_is_a_moment_of_the_calendar() {
    let s = get_current_time_iso();
    let t = parse_rfc3339_millis(&s).expect("the clock's text is read back");
    assert!(t.is_valid());
    assert!(t.year >= 1970);
    assert_eq!(t.nanosecond % 1_000_000, 0);
}

#[test]
fn current_time_round_trips() {
    let s = get_current_time_iso();
    let t = parse_rfc3339_millis(&s).expect("the clock's text is read back");
    assert_eq!(t.to_rfc3339_millis(), Some(s.clone()));
    let by_chrono = DateTime::parse_from_rfc3339(&s).expect("RFC 3339");
    assert_eq!(by_chrono.to_utc().to_rfc3339_opts(SecondsFormat::Millis, true), s);
}

#[test]
fn later_readings_are_later_by_the_time_waited() {
    let wait = Duration::from_millis(40);
    let first = get_current_time_iso();
    let started = Instant::now();
    while started.elapsed() < wait {
        std::hint::spin_loop();
    }
    let second = get_current_timestamp();
    let a = DateTime::parse_from_rfc3339(&first).expect("RFC 3339");
    let b = DateTime::parse_from_rfc3339(&second).expect("RFC 3339");
    let apart = b.signed_duration_since(a).num_milliseconds();
    // Each text is cut off at the millisecond, so one millisecond may be lost.
    assert!(apart >= 39, "{} then {}", first, second);
}
