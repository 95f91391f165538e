use oracle::addr::Ipv4;
use oracle::text::{digit_str, push_decimal};
use oracle::time::{Span, Timestamp, NANOS_PER_SEC};

#[test]
fn timestamp_counts_nanoseconds() {
    assert_eq!(Timestamp::new(0, 0).nanos, 0);
    assert_eq!(Timestamp::new(2, 5).nanos, 2_000_000_005);
    assert_eq!(
        Timestamp::new(u64::MAX, u32::MAX).nanos,
        u64::MAX as u128 * NANOS_PER_SEC + u32::MAX as u128
    );
}

#[test]
fn timestamp_splits_into_seconds_and_nanoseconds() {
    let t = Timestamp { nanos: 12_345_678_901 };
    assert_eq!(t.secs(), 12);
    assert_eq!(t.subsec_nanos(), 345_678_901);
}

#[test]
fn elapsed_time_saturates_at_zero() {
    let early = Timestamp::new(5, 0);
    let late = Timestamp::new(7, 250);
    assert_eq!(late.saturating_since(early), Span { nanos: 2_000_000_250 });
    assert_eq!(early.saturating_since(late), Span { nanos: 0 });
    assert_eq!(early.saturating_since(early), Span { nanos: 0 });
}

#[test]
fn span_counts_whole_seconds() {
    assert_eq!(Span::from_secs(30).nanos, 30_000_000_000);
    assert_eq!(Span { nanos: 30_999_999_999 }.as_secs(), 30);
    assert_eq!(Span { nanos: 999_999_999 }.as_secs(), 0);
}

#[test]
fn digits_are_single_characters() {
    let all: Vec<&str> = (0..10u8).map(digit_str).collect();
    assert_eq!(all, vec!["0", "1", "2", "3", "4", "5", "6", "7", "8", "9"]);
}

#[test]
fn decimal_has_no_leading_zeros() {
    for (n, text) in [(0u32, "0"), (7, "7"), (10, "10"), (105, "105"), (u32::MAX, "4294967295")] {
        let mut out = String::from("#");
        push_decimal(&mut out, n);
        assert_eq!(out, format!("#{}", text));
    }
}

#[test]
fn address_is_written_dotted() {
    assert_eq!(Ipv4::new(192, 0, 2, 1).to_text(), "192.0.2.1");
    assert_eq!(Ipv4::new(0, 0, 0, 0).to_text(), "0.0.0.0");
    assert_eq!(Ipv4::new(255, 255, 255, 255).to_text(), "255.255.255.255");
    assert_eq!(Ipv4::new(10, 200, 3, 40).octets(), [10, 200, 3, 40]);
}
