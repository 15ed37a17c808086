use clock_core::errors::TrackerError;
use clock_core::stopwatch::Stopwatch;
use clock_core::time::{Duration, Moment};

fn sec(s: i64) -> Moment {
    Moment::from_millis(s * 1000)
}

#[test]
fn scenario_resume_pause_reads_span() {
    // Stopwatch, resume at t=0s, pause at t=5s: read() == 5s.
    let mut w = Stopwatch::new();
    assert_eq!(w.resume_at(sec(0)), Ok(()));
    assert_eq!(w.pause_at(sec(5)), Ok(()));
    assert_eq!(w.read_at(sec(5)), Duration::seconds(5));
    assert_eq!(w.read_at(sec(60)), Duration::seconds(5));
}

#[test]
fn scenario_lap_then_zero_lap() {
    // resume@0s, lap@3s returns Some(3s); an immediate second lap at the
    // same moment returns Some(0s).
    let mut w = Stopwatch::new();
    assert_eq!(w.resume_at(sec(0)), Ok(()));
    assert_eq!(w.lap_at(sec(3)), Some(Duration::seconds(3)));
    assert_eq!(w.lap_at(sec(3)), Some(Duration::seconds(0)));
}

#[test]
fn scenario_pause_bridges_gap() {
    // resume@0s, pause@2s, resume@10s, pause@12s: read() == 4s, bridging
    // the 8s gap.
    let mut w = Stopwatch::new();
    assert_eq!(w.resume_at(sec(0)), Ok(()));
    assert_eq!(w.pause_at(sec(2)), Ok(()));
    assert_eq!(w.resume_at(sec(10)), Ok(()));
    assert_eq!(w.pause_at(sec(12)), Ok(()));
    assert_eq!(w.read_at(sec(12)), Duration::seconds(4));
}

#[test]
fn scenario_stop_without_start_fails() {
    // stop() on a never-started tracker fails with EmptyHistory.
    let mut w = Stopwatch::new();
    let r = w.stop_at(sec(7));
    assert!(matches!(r, Err(TrackerError::EmptyHistory)));
    let r = w.stop();
    assert!(matches!(r, Err(TrackerError::EmptyHistory)));
}

#[test]
fn accumulation_is_exact_over_many_cycles() {
    // Read right after each pause equals the exact sum of the closed
    // intervals: 1s + 4s + 9s.
    let mut w = Stopwatch::new();
    assert_eq!(w.resume_at(sec(0)), Ok(()));
    assert_eq!(w.pause_at(sec(1)), Ok(()));
    assert_eq!(w.read_at(sec(1)), Duration::seconds(1));
    assert_eq!(w.resume_at(sec(5)), Ok(()));
    assert_eq!(w.pause_at(sec(9)), Ok(()));
    assert_eq!(w.read_at(sec(9)), Duration::seconds(5));
    assert_eq!(w.resume_at(sec(20)), Ok(()));
    assert_eq!(w.pause_at(sec(29)), Ok(()));
    assert_eq!(w.read_at(sec(29)), Duration::seconds(14));
}

#[test]
fn paused_read_is_idempotent() {
    let mut w = Stopwatch::new();
    assert_eq!(w.resume_at(sec(0)), Ok(()));
    assert_eq!(w.pause_at(sec(3)), Ok(()));
    let first = w.read_at(sec(100));
    let second = w.read_at(sec(200));
    let third = w.read();
    assert_eq!(first, Duration::seconds(3));
    assert_eq!(second, first);
    assert_eq!(third, first);
}

#[test]
fn laps_tile_the_total_elapsed() {
    // Laps spanning pause/resume cycles: after stop(), the laps sum to
    // exactly the recorded total.
    let mut w = Stopwatch::new();
    assert_eq!(w.resume_at(sec(0)), Ok(()));
    assert_eq!(w.lap_at(sec(3)), Some(Duration::seconds(3)));
    assert_eq!(w.pause_at(sec(5)), Ok(()));
    assert_eq!(w.resume_at(sec(10)), Ok(()));
    // The open lap carries the 2s accrued before the pause across the gap.
    assert_eq!(w.lap_at(sec(11)), Some(Duration::seconds(3)));
    let record = w.stop_at(sec(14)).unwrap();
    assert_eq!(record.elapsed, Duration::seconds(9));
    assert_eq!(record.laps.len(), 3);
    assert_eq!(record.laps[0], Duration::seconds(3));
    assert_eq!(record.laps[1], Duration::seconds(3));
    assert_eq!(record.laps[2], Duration::seconds(3));
    let sum: i64 = record.laps.iter().map(|d| d.millis).sum();
    assert_eq!(sum, record.elapsed.millis);
}

#[test]
fn stop_while_paused_records_open_lap_without_extra_pause() {
    // Stopping a paused stopwatch keeps the session end at the last pause
    // and records the open lap's banked time as the final split.
    let mut w = Stopwatch::new();
    assert_eq!(w.resume_at(sec(0)), Ok(()));
    assert_eq!(w.pause_at(sec(5)), Ok(()));
    let record = w.stop_at(sec(8)).unwrap();
    assert_eq!(record.elapsed, Duration::seconds(5));
    assert_eq!(record.start_moments, vec![sec(0)]);
    assert_eq!(record.pause_moments, vec![sec(5)]);
    assert_eq!(record.lap_moments, vec![sec(8)]);
    assert_eq!(record.laps, vec![Duration::seconds(5)]);
}

#[test]
fn lap_taken_at_pause_moment_is_not_counted_twice() {
    // Lap exactly at the pause moment, then resume and lap again: the
    // second lap covers only the new interval.
    let mut w = Stopwatch::new();
    assert_eq!(w.resume_at(sec(0)), Ok(()));
    assert_eq!(w.lap_at(sec(3)), Some(Duration::seconds(3)));
    assert_eq!(w.pause_at(sec(3)), Ok(()));
    assert_eq!(w.resume_at(sec(10)), Ok(()));
    assert_eq!(w.lap_at(sec(12)), Some(Duration::seconds(2)));
}

#[test]
fn stop_resets_and_next_session_is_fresh() {
    // After stop(), read() is back at zero and a new session starts with
    // an empty history.
    let mut w = Stopwatch::new();
    assert_eq!(w.resume_at(sec(0)), Ok(()));
    assert_eq!(w.pause_at(sec(6)), Ok(()));
    let first = w.stop_at(sec(6)).unwrap();
    assert_eq!(first.elapsed, Duration::seconds(6));
    assert_eq!(w.read_at(sec(9)), Duration::zero());
    assert_eq!(w.resume_at(sec(20)), Ok(()));
    let second = w.stop_at(sec(21)).unwrap();
    assert_eq!(second.start_moments, vec![sec(20)]);
    assert_eq!(second.pause_moments, vec![sec(21)]);
    assert_eq!(second.elapsed, Duration::seconds(1));
}

#[test]
fn immediate_stop_records_zero_lap() {
    // Stop at the very moment of the resume: zero elapsed, one zero lap.
    let mut w = Stopwatch::new();
    assert_eq!(w.resume_at(sec(4)), Ok(()));
    let record = w.stop_at(sec(4)).unwrap();
    assert_eq!(record.elapsed, Duration::zero());
    assert_eq!(record.laps, vec![Duration::zero()]);
    assert_eq!(record.pause_moments, vec![sec(4)]);
}

#[test]
fn wrong_state_transitions_are_rejected() {
    let mut w = Stopwatch::new();
    assert_eq!(w.pause_at(sec(0)), Err(TrackerError::EmptyHistory));
    assert_eq!(w.resume_at(sec(0)), Ok(()));
    assert_eq!(w.resume_at(sec(1)), Err(TrackerError::InvalidState));
    assert_eq!(w.pause_at(sec(2)), Ok(()));
    assert_eq!(w.pause_at(sec(3)), Err(TrackerError::InvalidState));
    // Failed transitions left the state intact.
    assert_eq!(w.read_at(sec(3)), Duration::seconds(2));
}

#[test]
fn lap_while_paused_returns_none() {
    let mut w = Stopwatch::new();
    assert_eq!(w.lap_at(sec(0)), None);
    assert_eq!(w.resume_at(sec(0)), Ok(()));
    assert_eq!(w.pause_at(sec(2)), Ok(()));
    assert_eq!(w.lap_at(sec(3)), None);
    let record = w.stop_at(sec(3)).unwrap();
    // The rejected laps left no trace; only the final stop split exists.
    assert_eq!(record.laps.len(), 1);
}

#[test]
fn pause_or_resume_toggles() {
    let mut w = Stopwatch::new();
    w.pause_or_resume_at(sec(0));
    assert!(!w.paused);
    w.pause_or_resume_at(sec(7));
    assert!(w.paused);
    assert_eq!(w.read_at(sec(9)), Duration::seconds(7));
}

#[test]
fn record_accessors_give_session_ends() {
    let mut w = Stopwatch::new();
    assert_eq!(w.resume_at(sec(1)), Ok(()));
    assert_eq!(w.pause_at(sec(2)), Ok(()));
    assert_eq!(w.resume_at(sec(3)), Ok(()));
    let record = w.stop_at(sec(4)).unwrap();
    assert_eq!(record.start(), Ok(sec(1)));
    assert_eq!(record.stop(), Ok(sec(4)));
    let empty = w.stop();
    assert!(empty.is_err());
}

#[test]
fn empty_record_accessors_fail() {
    let record = clock_core::stopwatch::StopwatchData::default();
    assert_eq!(record.start(), Err(TrackerError::EmptyHistory));
    assert_eq!(record.stop(), Err(TrackerError::EmptyHistory));
}

#[test]
fn wall_clock_toggle_runs_and_pauses() {
    let mut w = Stopwatch::new();
    w.pause_or_resume();
    assert!(!w.paused);
    w.pause_or_resume();
    assert!(w.paused);
    assert!(w.read().millis >= 0);
}

#[test]
fn wall_clock_session_is_consistent() {
    // Drive a session off the real clock: whatever moments it reads, the
    // verified bookkeeping must hold together.
    let mut w = Stopwatch::new();
    assert_eq!(w.resume(), Ok(()));
    let lap = w.lap();
    assert!(lap.is_some());
    assert!(lap.unwrap().millis >= 0);
    assert_eq!(w.pause(), Ok(()));
    let banked = w.read();
    assert!(banked.millis >= 0);
    assert_eq!(w.read(), banked);
    assert_eq!(w.resume(), Ok(()));
    let record = w.stop().unwrap();
    let sum: i64 = record.laps.iter().map(|d| d.millis).sum();
    assert_eq!(sum, record.elapsed.millis);
    assert_eq!(record.start_moments.len(), 2);
    assert_eq!(record.pause_moments.len(), 2);
    // The wall clock reads a moment of the current era, far from the
    // tracker's bounds: the first start is a positive timestamp.
    assert!(record.start_moments[0].millis > 0);
    assert_eq!(w.read(), Duration::zero());
}
