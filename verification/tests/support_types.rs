use clock_core::errors::TrackerError;
use clock_core::time::{Duration, Moment, MOMENT_BOUND};

#[test]
fn duration_constructors_and_accessors() {
    assert_eq!(Duration::zero().num_milliseconds(), 0);
    assert!(Duration::zero().is_zero());
    assert_eq!(Duration::milliseconds(1234).num_milliseconds(), 1234);
    assert!(!Duration::milliseconds(-5).is_zero());
    assert_eq!(Duration::seconds(-3), Duration::milliseconds(-3000));
}

#[test]
fn moments_subtract_to_signed_spans() {
    let a = Moment::from_millis(2_000);
    let b = Moment::from_millis(5_500);
    assert_eq!(b.signed_duration_since(&a), Duration::milliseconds(3_500));
    assert_eq!(a.signed_duration_since(&b), Duration::milliseconds(-3_500));
    assert_eq!(a.signed_duration_since(&a), Duration::zero());
}

#[test]
fn moment_bound_leaves_room_for_wall_clock() {
    // Present-day timestamps are around 2^40 ms; the accepted bound is far
    // beyond them and far inside i64.
    assert!(MOMENT_BOUND > 1 << 50);
    // Three bounds' worth still fits in i64: the widest value the trackers
    // ever compute is an overdue remainder near -3 * MOMENT_BOUND.
    assert!(MOMENT_BOUND <= i64::MAX / 3);
}

#[test]
fn errors_describe_themselves() {
    assert_eq!(
        TrackerError::EmptyHistory.describe(),
        "tracker was never started"
    );
    assert_eq!(
        TrackerError::InvalidState.describe(),
        "tracker is already in the requested run state"
    );
    assert_ne!(TrackerError::EmptyHistory, TrackerError::InvalidState);
}
