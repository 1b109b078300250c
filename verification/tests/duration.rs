use prometheus_mpd_exporter::duration::{Duration, NANOS_PER_SEC};

#[test]
fn nanos_per_sec_is_a_billion() {
    assert_eq!(NANOS_PER_SEC, 1_000_000_000);
}

#[test]
fn new_keeps_seconds_and_fraction() {
    let span = Duration::new(3600, 250_000_000).unwrap();
    assert_eq!(span.as_secs(), 3600);
    assert_eq!(span.subsec_nanos(), 250_000_000);
}

#[test]
fn new_carries_whole_seconds_out_of_the_nanoseconds() {
    let span = Duration::new(5, 2_500_000_000).unwrap();
    assert_eq!(span.as_secs(), 7);
    assert_eq!(span.subsec_nanos(), 500_000_000);
}

#[test]
fn new_carries_exactly_one_second() {
    let span = Duration::new(0, 1_000_000_000).unwrap();
    assert_eq!(span.as_secs(), 1);
    assert_eq!(span.subsec_nanos(), 0);
}

#[test]
fn new_takes_the_largest_span() {
    let span = Duration::new(u64::MAX, 999_999_999).unwrap();
    assert_eq!(span.as_secs(), u64::MAX);
    assert_eq!(span.subsec_nanos(), 999_999_999);
}

#[test]
fn new_refuses_a_span_that_does_not_fit() {
    assert_eq!(Duration::new(u64::MAX, 1_000_000_000), None);
    assert_eq!(Duration::new(u64::MAX - 3, u32::MAX), None);
}

#[test]
fn new_takes_the_last_span_before_overflow() {
    let span = Duration::new(u64::MAX - 4, u32::MAX).unwrap();
    assert_eq!(span.as_secs(), u64::MAX);
    assert_eq!(span.subsec_nanos(), 294_967_295);
}

#[test]
fn from_secs_has_no_fraction() {
    let span = Duration::from_secs(120);
    assert_eq!(span.as_secs(), 120);
    assert_eq!(span.subsec_nanos(), 0);
    assert_eq!(span, Duration::new(120, 0).unwrap());
}

#[test]
fn as_secs_cuts_the_fraction_off() {
    assert_eq!(Duration::new(41, 999_999_999).unwrap().as_secs(), 41);
    assert_eq!(Duration::new(0, 999_999_999).unwrap().as_secs(), 0);
}

#[test]
fn equal_spans_are_equal_however_they_were_made() {
    assert_eq!(Duration::new(1, 1_500_000_000), Duration::new(2, 500_000_000));
    assert_ne!(Duration::new(1, 0), Duration::new(1, 1));
}
