use astronomy_engine::time::carry_nanoseconds;
use astronomy_engine::time::naive_from_timestamp_parts;
use astronomy_engine::time::CHRONO_MAX_SECONDS;
use astronomy_engine::time::CHRONO_MIN_SECONDS;
use astronomy_engine::time::NANOS_PER_SECOND;

#[test]
fn carry_leaves_normalized_reading() {
    assert_eq!(carry_nanoseconds(7, 250), Some((7, 250)));
    assert_eq!(carry_nanoseconds(-3, 999_999_999), Some((-3, 999_999_999)));
}

#[test]
fn carry_moves_full_second() {
    assert_eq!(carry_nanoseconds(5, NANOS_PER_SECOND), Some((6, 0)));
    assert_eq!(carry_nanoseconds(5, 1_500_000_000), Some((6, 500_000_000)));
}

#[test]
fn carry_clamps_negative_nanos() {
    assert_eq!(carry_nanoseconds(5, -3), Some((5, 0)));
    assert_eq!(carry_nanoseconds(0, i64::MIN), Some((0, 0)));
}

#[test]
fn carry_overflow_is_refused() {
    assert_eq!(carry_nanoseconds(i64::MAX, NANOS_PER_SECOND), None);
    assert_eq!(carry_nanoseconds(i64::MAX, 999_999_999), Some((i64::MAX, 999_999_999)));
}

#[test]
fn carry_carries_only_once() {
    assert_eq!(carry_nanoseconds(1, 5_000_000_000), Some((2, 4_000_000_000)));
    // 9_000_000_000 does not fit in u32: its low 32 bits remain.
    assert_eq!(carry_nanoseconds(0, 10_000_000_000), Some((1, 410_065_408)));
}

#[test]
fn carry_preserves_instant() {
    for (s, n) in [(0i64, 0i64), (12, 1_999_999_999), (-40, 1_000_000_000), (99, 3)] {
        let (cs, cn) = carry_nanoseconds(s, n).unwrap();
        assert!((cn as i64) < NANOS_PER_SECOND);
        assert_eq!(
            cs as i128 * NANOS_PER_SECOND as i128 + cn as i128,
            s as i128 * NANOS_PER_SECOND as i128 + n as i128
        );
    }
}

#[test]
fn naive_epoch() {
    let dt = naive_from_timestamp_parts(0, 0).unwrap();
    assert_eq!(dt.and_utc().timestamp(), 0);
    assert_eq!(dt.to_string(), "1970-01-01 00:00:00");
}

#[test]
fn naive_keeps_the_instant() {
    let dt = naive_from_timestamp_parts(1_221_913_540, 100_000_000).unwrap();
    assert_eq!(dt.and_utc().timestamp(), 1_221_913_540);
    assert_eq!(dt.and_utc().timestamp_subsec_nanos(), 100_000_000);
}

#[test]
fn naive_after_carry() {
    let dt = naive_from_timestamp_parts(59, 1_500_000_000).unwrap();
    assert_eq!(dt.and_utc().timestamp(), 60);
    assert_eq!(dt.and_utc().timestamp_subsec_nanos(), 500_000_000);
}

#[test]
fn naive_range_bounds() {
    assert!(naive_from_timestamp_parts(CHRONO_MAX_SECONDS, 999_999_999).is_some());
    assert!(naive_from_timestamp_parts(CHRONO_MAX_SECONDS + 1, 0).is_none());
    assert!(naive_from_timestamp_parts(CHRONO_MIN_SECONDS, 0).is_some());
    assert!(naive_from_timestamp_parts(CHRONO_MIN_SECONDS - 1, 999_999_999).is_none());
    assert!(naive_from_timestamp_parts(CHRONO_MAX_SECONDS, NANOS_PER_SECOND).is_none());
    assert!(naive_from_timestamp_parts(i64::MAX, NANOS_PER_SECOND).is_none());
}

#[test]
fn naive_leap_second_only_at_end_of_minute() {
    // After one carry, 1.5 s of nanoseconds remain: chrono takes it only as a
    // leap second, on the 59th second of a minute.
    let leap = naive_from_timestamp_parts(58, 2_500_000_000);
    assert!(leap.is_some());
    assert_eq!(leap.unwrap().and_utc().timestamp(), 59);
    assert!(naive_from_timestamp_parts(57, 2_500_000_000).is_none());
}

#[test]
fn validity_follows_instant() {
    assert_eq!(
        naive_from_timestamp_parts(59, NANOS_PER_SECOND).is_some(),
        naive_from_timestamp_parts(60, 0).is_some()
    );
    assert_eq!(
        naive_from_timestamp_parts(CHRONO_MAX_SECONDS, NANOS_PER_SECOND).is_some(),
        naive_from_timestamp_parts(CHRONO_MAX_SECONDS + 1, 0).is_some()
    );
    assert_eq!(
        naive_from_timestamp_parts(CHRONO_MIN_SECONDS - 1, NANOS_PER_SECOND).is_some(),
        naive_from_timestamp_parts(CHRONO_MIN_SECONDS, 0).is_some()
    );
}
