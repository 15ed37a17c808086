//! A count-up stopwatch with lap recording.
//!
//! The stopwatch is created paused at zero and runs only between a
//! `resume` and the matching `pause`. While it runs, `lap` splits off the
//! time accrued since the previous split; a lap that spans pause/resume
//! cycles carries its accrued time across them. `stop` closes the session
//! and hands back the full history as a [`StopwatchData`] record, leaving
//! the stopwatch reset to zero.
//!
//! Every operation exists in two forms: one that reads the wall clock, and
//! an `_at` form that takes the moment as an argument. The `_at` forms hold
//! the whole logic; moments handed to them may not precede anything already
//! recorded (the clock-reading forms enforce this themselves by treating a
//! backwards clock reading as no time passing).

use vstd::prelude::*;

verus! {

use crate::clock;
use crate::errors::TrackerError;
use crate::time::{
    closed_interval_sum, duration_sum, lemma_duration_sum_nonneg, lemma_duration_sum_push,
    lemma_interval_sum_push_pause, lemma_interval_sum_push_start, lemma_moments_in_range_push,
    lemma_nondecreasing_push, last_or_min, moments_in_range, nondecreasing, Duration, Moment,
    MOMENT_BOUND,
};
use vstd::math::max3;

/// The completed history of one stopwatch session, returned by `stop`.
#[derive(Debug)]
pub struct StopwatchData {
    /// Total time the stopwatch ran during the session.
    pub elapsed: Duration,
    /// Moments at which the stopwatch was paused; the last one is the
    /// session end.
    pub pause_moments: Vec<Moment>,
    /// Moments at which the stopwatch was resumed; the first one is the
    /// session start.
    pub start_moments: Vec<Moment>,
    /// Moments at which a lap or stop split was taken.
    pub lap_moments: Vec<Moment>,
    /// The lap lengths, parallel to `lap_moments`.
    pub laps: Vec<Duration>,
}

impl Default for StopwatchData {
    /// An empty history: nothing elapsed, no recorded moments.
    fn default() -> (r: Self)
        ensures
            r.elapsed.millis == 0,
            r.start_moments@.len() == 0,
            r.pause_moments@.len() == 0,
            r.lap_moments@.len() == 0,
            r.laps@.len() == 0,
    {
        Self {
            elapsed: Duration { millis: 0 },
            start_moments: Vec::new(),
            pause_moments: Vec::new(),
            lap_moments: Vec::new(),
            laps: Vec::new(),
        }
    }
}

impl StopwatchData {
    /// The moment the session started: the first resume.
    pub fn start(&self) -> (r: Result<Moment, TrackerError>)
        ensures
            self.start_moments@.len() == 0 ==> r == Err::<Moment, TrackerError>(
                TrackerError::EmptyHistory,
            ),
            self.start_moments@.len() > 0 ==> r == Ok::<Moment, TrackerError>(
                self.start_moments@[0],
            ),
    {
        if self.start_moments.len() == 0 {
            Err(TrackerError::EmptyHistory)
        } else {
            Ok(self.start_moments[0])
        }
    }

    /// The moment the session ended: the last pause.
    pub fn stop(&self) -> (r: Result<Moment, TrackerError>)
        ensures
            self.pause_moments@.len() == 0 ==> r == Err::<Moment, TrackerError>(
                TrackerError::EmptyHistory,
            ),
            self.pause_moments@.len() > 0 ==> r == Ok::<Moment, TrackerError>(
                self.pause_moments@.last(),
            ),
    {
        if self.pause_moments.len() == 0 {
            Err(TrackerError::EmptyHistory)
        } else {
            Ok(self.pause_moments[self.pause_moments.len() - 1])
        }
    }
}

/// A count-up stopwatch: a run state, the time banked so far, and the
/// in-progress session history.
#[derive(Debug)]
pub struct Stopwatch {
    /// Time banked within the still-open lap.
    pub lap_elapsed: Duration,
    /// Whether the stopwatch is paused. It is created paused.
    pub paused: bool,
    /// The in-progress session history.
    pub data: StopwatchData,
}

/// The relation between a stopwatch before and after a successful resume
/// at moment `m`: `m` is appended to the start moments and the run state
/// flips to running; everything banked stays as it was.
pub open spec fn resume_transition(pre: Stopwatch, post: Stopwatch, m: Moment) -> bool {
    &&& !post.paused
    &&& post.data.start_moments@ == pre.data.start_moments@.push(m)
    &&& post.data.pause_moments@ == pre.data.pause_moments@
    &&& post.data.lap_moments@ == pre.data.lap_moments@
    &&& post.data.laps@ == pre.data.laps@
    &&& post.data.elapsed == pre.data.elapsed
    &&& post.lap_elapsed == pre.lap_elapsed
}

/// The relation between a stopwatch before and after a successful pause at
/// moment `m`: `m` is appended to the pause moments, the just-closed
/// interval is banked into `elapsed`, the same span is folded into the open
/// lap's accumulator, and the run state flips to paused.
pub open spec fn pause_transition(pre: Stopwatch, post: Stopwatch, m: Moment) -> bool {
    &&& post.paused
    &&& post.data.start_moments@ == pre.data.start_moments@
    &&& post.data.pause_moments@ == pre.data.pause_moments@.push(m)
    &&& post.data.lap_moments@ == pre.data.lap_moments@
    &&& post.data.laps@ == pre.data.laps@
    &&& post.data.elapsed.millis == pre.data.elapsed.millis + m.millis - pre.last_start()
    &&& post.lap_elapsed.millis == pre.lap_elapsed.millis + m.millis - pre.anchor()
}

/// The relation between a running stopwatch before and after a lap at
/// moment `m` that returned the split `d`: the split is the open lap's
/// banked time plus the time since the lap's anchor; it is recorded, and
/// the lap accumulator starts over at zero.
pub open spec fn lap_transition(pre: Stopwatch, post: Stopwatch, m: Moment, d: Duration) -> bool {
    &&& !post.paused
    &&& post.data.start_moments@ == pre.data.start_moments@
    &&& post.data.pause_moments@ == pre.data.pause_moments@
    &&& post.data.elapsed == pre.data.elapsed
    &&& post.data.lap_moments@ == pre.data.lap_moments@.push(m)
    &&& post.data.laps@ == pre.data.laps@.push(d)
    &&& d.millis == pre.lap_elapsed.millis + m.millis - pre.anchor()
    &&& post.lap_elapsed.millis == 0
}

/// What the record handed back by a stop at moment `m` holds. A running
/// stopwatch gets a final implicit lap and pause at `m`; a paused one only
/// gets the still-open lap's banked time recorded as a final split (its
/// session already ended at the last pause, so no pause moment is added).
pub open spec fn stop_record(pre: Stopwatch, d: StopwatchData, m: Moment) -> bool {
    &&& d.start_moments@ == pre.data.start_moments@
    &&& d.lap_moments@ == pre.data.lap_moments@.push(m)
    &&& d.laps@.len() == pre.data.laps@.len() + 1
    &&& d.laps@ == pre.data.laps@.push(d.laps@.last())
    &&& if pre.paused {
        &&& d.pause_moments@ == pre.data.pause_moments@
        &&& d.elapsed == pre.data.elapsed
        &&& d.laps@.last() == pre.lap_elapsed
    } else {
        &&& d.pause_moments@ == pre.data.pause_moments@.push(m)
        &&& d.elapsed.millis == pre.data.elapsed.millis + m.millis - pre.last_start()
        &&& d.laps@.last().millis == pre.lap_elapsed.millis + m.millis - pre.anchor()
    }
}

impl Stopwatch {
    /// Whether the stopwatch has been resumed at least once this session.
    pub open spec fn started(self) -> bool {
        self.data.start_moments@.len() > 0
    }

    /// The most recent resume moment, in milliseconds.
    pub open spec fn last_start(self) -> int {
        self.data.start_moments@.last().millis as int
    }

    /// The first resume moment of the session, in milliseconds.
    pub open spec fn first_start(self) -> int {
        self.data.start_moments@[0].millis as int
    }

    /// The most recent pause moment, in milliseconds.
    pub open spec fn last_pause(self) -> int {
        self.data.pause_moments@.last().millis as int
    }

    /// The latest moment recorded anywhere in the session; no new moment
    /// may precede it.
    pub open spec fn latest(self) -> int {
        max3(
            last_or_min(self.data.start_moments@),
            last_or_min(self.data.pause_moments@),
            last_or_min(self.data.lap_moments@),
        )
    }

    /// The moment the still-open lap stopped accruing from: the last lap
    /// split if one was taken within the current running interval,
    /// otherwise the interval's own start.
    pub open spec fn anchor(self) -> int {
        let s = self.last_start();
        if self.data.lap_moments@.len() > 0 && self.data.lap_moments@.last().millis > s {
            self.data.lap_moments@.last().millis as int
        } else {
            s
        }
    }

    /// The moment up to which `elapsed` has banked time: the last pause
    /// while paused, the current interval's start while running.
    pub open spec fn cap(self) -> int {
        if !self.paused {
            self.last_start()
        } else {
            self.last_pause()
        }
    }

    /// What `read` returns at moment `now`: the banked time, plus the open
    /// interval up to `now` when running.
    pub open spec fn read_spec(self, now: int) -> int {
        if self.paused {
            self.data.elapsed.millis as int
        } else {
            self.data.elapsed.millis + now - self.last_start()
        }
    }

    /// The stopwatch holds a fresh, empty session: paused at zero.
    pub open spec fn is_reset(self) -> bool {
        &&& self.paused
        &&& self.data.start_moments@.len() == 0
        &&& self.data.pause_moments@.len() == 0
        &&& self.data.lap_moments@.len() == 0
        &&& self.data.laps@.len() == 0
        &&& self.data.elapsed.millis == 0
        &&& self.lap_elapsed.millis == 0
    }

    /// Well-formedness: the bookkeeping a stopwatch keeps across every
    /// pause/resume/lap cycle.
    ///
    /// The heart of it: `elapsed` is exactly the sum of all closed
    /// intervals, and the recorded laps plus the still-open lap's banked
    /// time tile `elapsed` exactly. The remaining conjuncts keep moments
    /// ordered and bounded so that no duration arithmetic can overflow.
    pub open spec fn wf(self) -> bool {
        let d = self.data;
        &&& d.laps@.len() == d.lap_moments@.len()
        &&& (if self.paused {
            d.pause_moments@.len() == d.start_moments@.len()
        } else {
            d.start_moments@.len() == d.pause_moments@.len() + 1
        })
        &&& moments_in_range(d.start_moments@)
        &&& moments_in_range(d.pause_moments@)
        &&& moments_in_range(d.lap_moments@)
        &&& nondecreasing(d.start_moments@)
        &&& nondecreasing(d.pause_moments@)
        &&& nondecreasing(d.lap_moments@)
        &&& d.elapsed.millis == closed_interval_sum(d.start_moments@, d.pause_moments@)
        &&& 0 <= self.lap_elapsed.millis
        &&& (forall|i: int| 0 <= i < d.laps@.len() ==> 0 <= (#[trigger] d.laps@[i]).millis)
        &&& (!self.started() ==> self.is_reset())
        &&& (self.started() ==> 0 <= d.elapsed.millis && d.elapsed.millis <= self.cap()
            - self.first_start())
        &&& (if self.paused {
            duration_sum(d.laps@) + self.lap_elapsed.millis == d.elapsed.millis
        } else {
            duration_sum(d.laps@) + self.lap_elapsed.millis + self.last_start()
                == d.elapsed.millis + self.anchor()
        })
    }

    /// A new stopwatch: paused at zero with an empty history. It will not
    /// run until `resume` or `pause_or_resume` is called.
    pub fn new() -> (r: Self)
        ensures
            r.wf(),
            r.is_reset(),
    {
        Self::default()
    }

    /// The latest recorded moment, in milliseconds, or the lower bound if
    /// nothing is recorded yet.
    fn latest_millis(&self) -> (r: i64)
        requires
            self.wf(),
        ensures
            r as int == self.latest(),
    {
        let mut r: i64 = -MOMENT_BOUND;
        let ns = self.data.start_moments.len();
        if ns > 0 {
            let v = self.data.start_moments[ns - 1].millis;
            if v > r {
                r = v;
            }
        }
        let np = self.data.pause_moments.len();
        if np > 0 {
            let v = self.data.pause_moments[np - 1].millis;
            if v > r {
                r = v;
            }
        }
        let nl = self.data.lap_moments.len();
        if nl > 0 {
            let v = self.data.lap_moments[nl - 1].millis;
            if v > r {
                r = v;
            }
        }
        r
    }

    /// A wall-clock reading clamped so it never precedes anything already
    /// recorded: the tracker treats a backwards-stepping clock as no time
    /// having passed.
    fn now_monotonic(&self) -> (r: Moment)
        requires
            self.wf(),
        ensures
            r.in_range(),
            self.latest() <= r.millis,
    {
        let now = clock::now_moment();
        let floor = self.latest_millis();
        if now.millis < floor {
            Moment { millis: floor }
        } else {
            now
        }
    }

    /// Read the total time elapsed: the banked time, plus the open
    /// interval up to now when running.
    pub fn read(&self) -> (r: Duration)
        requires
            self.wf(),
        ensures
            self.paused ==> r.millis == self.data.elapsed.millis,
            !self.paused ==> exists|now: int|
                self.latest() <= now <= MOMENT_BOUND && r.millis == #[trigger] self.read_spec(now),
    {
        let now = self.now_monotonic();
        self.read_at(now)
    }

    /// Read the total time elapsed as of `moment`.
    pub fn read_at(&self, moment: Moment) -> (r: Duration)
        requires
            self.wf(),
            !self.paused ==> moment.in_range() && self.latest() <= moment.millis,
        ensures
            r.millis == self.read_spec(moment.millis as int),
    {
        if self.paused {
            self.data.elapsed
        } else {
            let n = self.data.start_moments.len();
            let last_start = self.data.start_moments[n - 1];
            Duration { millis: self.data.elapsed.millis + (moment.millis - last_start.millis) }
        }
    }

    /// Pause or resume, whichever applies: the dispatch can never hit the
    /// wrong-state error.
    pub fn pause_or_resume(&mut self)
        requires
            old(self).wf(),
        ensures
            final(self).wf(),
            old(self).paused ==> exists|m: Moment|
                m.in_range() && old(self).latest() <= m.millis && #[trigger] resume_transition(
                    *old(self),
                    *final(self),
                    m,
                ),
            !old(self).paused ==> exists|m: Moment|
                m.in_range() && old(self).latest() <= m.millis && #[trigger] pause_transition(
                    *old(self),
                    *final(self),
                    m,
                ),
    {
        let now = self.now_monotonic();
        self.pause_or_resume_at(now);
    }

    /// Pause or resume as of `moment`, whichever applies.
    pub fn pause_or_resume_at(&mut self, moment: Moment)
        requires
            old(self).wf(),
            moment.in_range(),
            old(self).latest() <= moment.millis,
        ensures
            final(self).wf(),
            old(self).paused ==> resume_transition(*old(self), *final(self), moment),
            !old(self).paused ==> pause_transition(*old(self), *final(self), moment),
    {
        if self.paused {
            let _ = self.resume_at(moment);
        } else {
            let _ = self.pause_at(moment);
        }
    }

    /// Resume the stopwatch. Fails with `InvalidState` if it is already
    /// running, leaving it untouched.
    pub fn resume(&mut self) -> (r: Result<(), TrackerError>)
        requires
            old(self).wf(),
        ensures
            final(self).wf(),
            !old(self).paused ==> r == Err::<(), TrackerError>(TrackerError::InvalidState)
                && *final(self) == *old(self),
            old(self).paused ==> r == Ok::<(), TrackerError>(()) && exists|m: Moment|
                m.in_range() && old(self).latest() <= m.millis && #[trigger] resume_transition(
                    *old(self),
                    *final(self),
                    m,
                ),
    {
        let now = self.now_monotonic();
        self.resume_at(now)
    }

    /// Resume the stopwatch as of `moment`. Fails with `InvalidState` if
    /// it is already running, leaving it untouched.
    pub fn resume_at(&mut self, moment: Moment) -> (r: Result<(), TrackerError>)
        requires
            old(self).wf(),
            moment.in_range(),
            old(self).latest() <= moment.millis,
        ensures
            final(self).wf(),
            !old(self).paused ==> r == Err::<(), TrackerError>(TrackerError::InvalidState)
                && *final(self) == *old(self),
            old(self).paused ==> r == Ok::<(), TrackerError>(()) && resume_transition(
                *old(self),
                *final(self),
                moment,
            ),
    {
        if !self.paused {
            return Err(TrackerError::InvalidState);
        }
        proof {
            lemma_interval_sum_push_start(
                self.data.start_moments@,
                self.data.pause_moments@,
                moment,
            );
            lemma_nondecreasing_push(self.data.start_moments@, moment);
            lemma_moments_in_range_push(self.data.start_moments@, moment);
        }
        self.data.start_moments.push(moment);
        self.paused = false;
        Ok(())
    }

    /// Pause the stopwatch as of `moment`, banking the just-closed
    /// interval. Fails with `EmptyHistory` if the stopwatch was never
    /// started, with `InvalidState` if it is already paused; either way it
    /// is left untouched.
    pub fn pause_at(&mut self, moment: Moment) -> (r: Result<(), TrackerError>)
        requires
            old(self).wf(),
            moment.in_range(),
            old(self).latest() <= moment.millis,
        ensures
            final(self).wf(),
            !old(self).started() ==> r == Err::<(), TrackerError>(TrackerError::EmptyHistory)
                && *final(self) == *old(self),
            old(self).started() && old(self).paused ==> r == Err::<(), TrackerError>(
                TrackerError::InvalidState,
            ) && *final(self) == *old(self),
            !old(self).paused ==> r == Ok::<(), TrackerError>(()) && pause_transition(
                *old(self),
                *final(self),
                moment,
            ),
    {
        if self.data.start_moments.len() == 0 {
            return Err(TrackerError::EmptyHistory);
        }
        if self.paused {
            return Err(TrackerError::InvalidState);
        }
        let n = self.data.start_moments.len();
        let last_start = self.data.start_moments[n - 1];
        let new_lap = self.read_lap_elapsed(moment);
        proof {
            lemma_interval_sum_push_pause(
                self.data.start_moments@,
                self.data.pause_moments@,
                moment,
            );
            lemma_nondecreasing_push(self.data.pause_moments@, moment);
            lemma_moments_in_range_push(self.data.pause_moments@, moment);
        }
        self.data.pause_moments.push(moment);
        self.data.elapsed = Duration {
            millis: self.data.elapsed.millis + (moment.millis - last_start.millis),
        };
        self.lap_elapsed = new_lap;
        self.paused = true;
        Ok(())
    }

    /// Pause the stopwatch, banking the just-closed interval. Fails with
    /// `EmptyHistory` if the stopwatch was never started, with
    /// `InvalidState` if it is already paused; either way it is left
    /// untouched.
    pub fn pause(&mut self) -> (r: Result<(), TrackerError>)
        requires
            old(self).wf(),
        ensures
            final(self).wf(),
            !old(self).started() ==> r == Err::<(), TrackerError>(TrackerError::EmptyHistory)
                && *final(self) == *old(self),
            old(self).started() && old(self).paused ==> r == Err::<(), TrackerError>(
                TrackerError::InvalidState,
            ) && *final(self) == *old(self),
            !old(self).paused ==> r == Ok::<(), TrackerError>(()) && exists|m: Moment|
                m.in_range() && old(self).latest() <= m.millis && #[trigger] pause_transition(
                    *old(self),
                    *final(self),
                    m,
                ),
    {
        let now = self.now_monotonic();
        self.pause_at(now)
    }

    /// Take a lap as of `moment`. Running: records and returns the split —
    /// the open lap's banked time plus the time since the last split (or
    /// since the current interval's start, if the lap's accrual began
    /// there) — and starts the next lap at zero. Paused: returns `None`
    /// and changes nothing.
    pub fn lap_at(&mut self, moment: Moment) -> (r: Option<Duration>)
        requires
            old(self).wf(),
            moment.in_range(),
            old(self).latest() <= moment.millis,
        ensures
            final(self).wf(),
            old(self).paused ==> r is None && *final(self) == *old(self),
            !old(self).paused ==> (r matches Some(d) && lap_transition(
                *old(self),
                *final(self),
                moment,
                d,
            )),
    {
        if self.paused {
            return None;
        }
        let lap = self.read_lap_elapsed(moment);
        proof {
            lemma_duration_sum_push(self.data.laps@, lap);
            lemma_nondecreasing_push(self.data.lap_moments@, moment);
            lemma_moments_in_range_push(self.data.lap_moments@, moment);
        }
        self.data.lap_moments.push(moment);
        self.data.laps.push(lap);
        self.lap_elapsed = Duration { millis: 0 };
        Some(lap)
    }

    /// Take a lap now; see `lap_at`.
    pub fn lap(&mut self) -> (r: Option<Duration>)
        requires
            old(self).wf(),
        ensures
            final(self).wf(),
            old(self).paused ==> r is None && *final(self) == *old(self),
            !old(self).paused ==> (r matches Some(d) && exists|m: Moment|
                m.in_range() && old(self).latest() <= m.millis && #[trigger] lap_transition(
                    *old(self),
                    *final(self),
                    m,
                    d,
                )),
    {
        let now = self.now_monotonic();
        self.lap_at(now)
    }

    /// Stop the session as of `moment` and hand back its record, leaving
    /// the stopwatch reset to zero. A running stopwatch gets an implicit
    /// final lap and pause first; a paused one only has the open lap's
    /// banked time recorded as a final split. The recorded laps always
    /// tile the recorded total exactly. Fails with `EmptyHistory` if the
    /// stopwatch was never started this session.
    pub fn stop_at(&mut self, moment: Moment) -> (r: Result<StopwatchData, TrackerError>)
        requires
            old(self).wf(),
            moment.in_range(),
            old(self).latest() <= moment.millis,
        ensures
            final(self).wf(),
            !old(self).started() ==> r == Err::<StopwatchData, TrackerError>(
                TrackerError::EmptyHistory,
            ) && *final(self) == *old(self),
            old(self).started() ==> (r matches Ok(d) && final(self).is_reset() && stop_record(
                *old(self),
                d,
                moment,
            ) && duration_sum(d.laps@) == d.elapsed.millis),
    {
        if self.data.start_moments.len() == 0 {
            return Err(TrackerError::EmptyHistory);
        }
        if !self.paused {
            let lap = self.read_lap_elapsed(moment);
            let n = self.data.start_moments.len();
            let last_start = self.data.start_moments[n - 1];
            proof {
                lemma_duration_sum_push(self.data.laps@, lap);
                lemma_interval_sum_push_pause(
                    self.data.start_moments@,
                    self.data.pause_moments@,
                    moment,
                );
            }
            self.data.lap_moments.push(moment);
            self.data.laps.push(lap);
            self.lap_elapsed = Duration { millis: 0 };
            self.data.pause_moments.push(moment);
            self.data.elapsed = Duration {
                millis: self.data.elapsed.millis + (moment.millis - last_start.millis),
            };
            self.paused = true;
        } else {
            let lap = self.lap_elapsed;
            proof {
                lemma_duration_sum_push(self.data.laps@, lap);
            }
            self.data.lap_moments.push(moment);
            self.data.laps.push(lap);
            self.lap_elapsed = Duration { millis: 0 };
        }
        let mut record = StopwatchData::default();
        core::mem::swap(&mut self.data, &mut record);
        Ok(record)
    }

    /// Stop the session now; see `stop_at`.
    pub fn stop(&mut self) -> (r: Result<StopwatchData, TrackerError>)
        requires
            old(self).wf(),
        ensures
            final(self).wf(),
            !old(self).started() ==> r == Err::<StopwatchData, TrackerError>(
                TrackerError::EmptyHistory,
            ) && *final(self) == *old(self),
            old(self).started() ==> (r matches Ok(d) && final(self).is_reset() && duration_sum(
                d.laps@,
            ) == d.elapsed.millis && exists|m: Moment|
                m.in_range() && old(self).latest() <= m.millis && #[trigger] stop_record(
                    *old(self),
                    d,
                    m,
                )),
    {
        let now = self.now_monotonic();
        self.stop_at(now)
    }

    /// The time accrued by the still-open lap as of `moment`: its banked
    /// time plus the time since its anchor. Unlike the bare bookkeeping of
    /// the lap accumulator alone, the anchor is chosen as the later of the
    /// last split and the current interval's start, so a split taken right
    /// at a pause moment cannot be counted twice.
    fn read_lap_elapsed(&self, moment: Moment) -> (r: Duration)
        requires
            self.wf(),
            !self.paused,
            moment.in_range(),
            self.latest() <= moment.millis,
        ensures
            r.millis == self.lap_elapsed.millis + moment.millis - self.anchor(),
            r.millis >= 0,
    {
        proof {
            lemma_duration_sum_nonneg(self.data.laps@);
        }
        let n = self.data.start_moments.len();
        let last_start = self.data.start_moments[n - 1];
        let nl = self.data.lap_moments.len();
        let anchor = if nl > 0 {
            let last_lap = self.data.lap_moments[nl - 1];
            if last_lap.millis > last_start.millis {
                last_lap
            } else {
                last_start
            }
        } else {
            last_start
        };
        Duration { millis: self.lap_elapsed.millis + (moment.millis - anchor.millis) }
    }
}

impl Default for Stopwatch {
    /// A new stopwatch: paused at zero with an empty history.
    fn default() -> (r: Self)
        ensures
            r.wf(),
            r.is_reset(),
    {
        Self {
            lap_elapsed: Duration { millis: 0 },
            paused: true,
            data: StopwatchData::default(),
        }
    }
}

/// Monotonic accumulation: whenever the stopwatch is paused, what it reads —
/// at any moment — is exactly the sum of the closed intervals recorded so
/// far, with no drift and no double counting.
pub proof fn lemma_monotonic_accumulation(w: Stopwatch, now: int)
    requires
        w.wf(),
        w.paused,
    ensures
        w.read_spec(now) == closed_interval_sum(w.data.start_moments@, w.data.pause_moments@),
{
}

/// Paused reads are idempotent: while the stopwatch is paused, every read
/// returns the identical value, whatever moments the reads happen at.
pub proof fn lemma_paused_read_stable(w: Stopwatch, now1: int, now2: int)
    requires
        w.paused,
    ensures
        w.read_spec(now1) == w.read_spec(now2),
{
}

/// The laps tile the total: whenever the stopwatch is paused, the recorded
/// laps plus the still-open lap's banked time sum to exactly the elapsed
/// total. After `stop` records that open lap as the final split, the laps
/// in the record sum to exactly its `elapsed`.
pub proof fn lemma_laps_tile_elapsed(w: Stopwatch)
    requires
        w.wf(),
        w.paused,
    ensures
        duration_sum(w.data.laps@) + w.lap_elapsed.millis == w.data.elapsed.millis,
{
}

/// Round-trip reset: a stopwatch whose session was just stopped reads zero
/// — its construction-time value — at every moment.
pub proof fn lemma_reset_reads_zero(w: Stopwatch, now: int)
    requires
        w.is_reset(),
    ensures
        w.read_spec(now) == 0,
{
}

} // verus!
