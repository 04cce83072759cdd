use kemuler::control_flow::Duration;
use kemuler::control_flow::IntoDuration;

#[test]
fn second_encodings_normalize_alike() {
    // One second, written as a float of seconds and as an integer of
    // seconds, normalizes to the same internal duration.
    let from_float = Duration::from_nanos((1.0f64 * 1_000_000_000.0) as u64);
    let from_int = 1u64.into_duration();
    assert_eq!(from_float, from_int);
    assert_eq!(from_float, Duration::from_secs(1));
}

#[test]
fn fractional_second_encodings_normalize_alike() {
    let from_float = Duration::from_nanos((1.5f64 * 1_000_000_000.0) as u64);
    assert_eq!(from_float, Duration::from_millis(1500));
}

#[test]
fn duration_parts_are_normalized() {
    let d = Duration::from_millis(2500);
    assert_eq!(d.as_secs(), 2);
    assert_eq!(d.subsec_nanos(), 500_000_000);

    let whole = Duration::from_nanos(3_000_000_000);
    assert_eq!(whole, Duration::from_secs(3));
    assert_eq!(whole.as_secs(), 3);
    assert_eq!(whole.subsec_nanos(), 0);
}

#[test]
fn duration_reencoding_is_identity() {
    let d = Duration::from_millis(1234);
    assert_eq!(d.into_duration(), d);
}
