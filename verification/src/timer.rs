//! A countdown timer.
//!
//! The timer is created paused at a configured total duration and counts
//! down only between a `resume` and the matching `pause`. Reading it while
//! running may return a negative duration once the total has elapsed —
//! nothing is clamped; callers read negative as "overdue". `stop` closes
//! the session and hands back its history as a [`TimerData`] record,
//! resetting the timer to the full configured duration.
//!
//! Stop policy, fixed and documented here: `stop` appends the stop moment
//! as a final pause only if the timer was still running, it never folds the
//! still-open interval into `remaining` (the record keeps the value banked
//! at the last pause), and it always leaves the timer paused.
//!
//! Every operation exists in two forms: one that reads the wall clock, and
//! an `_at` form that takes the moment as an argument. The `_at` forms hold
//! the whole logic; moments handed to them may not precede anything already
//! recorded (the clock-reading forms enforce this themselves by treating a
//! backwards clock reading as no time passing).

use vstd::prelude::*;

verus! {

use crate::clock;
use crate::errors::TrackerError;
use crate::time::{
    closed_interval_sum, lemma_interval_sum_push_pause, lemma_interval_sum_push_start,
    lemma_moments_in_range_push, lemma_nondecreasing_push, last_or_min, moments_in_range,
    nondecreasing, Duration, Moment, MOMENT_BOUND,
};
use vstd::math::max;

/// The history of one timer session, returned by `stop`.
#[derive(Debug, Clone)]
pub struct TimerData {
    /// The configured countdown total.
    pub total: Duration,
    /// What was left on the clock at the last pause. Negative means the
    /// timer ran past its total.
    pub remaining: Duration,
    /// Moments at which the timer was resumed; the first one is the
    /// session start.
    pub start_moments: Vec<Moment>,
    /// Moments at which the timer was paused; the last one is the session
    /// end.
    pub pause_moments: Vec<Moment>,
}

impl TimerData {
    /// Moments of both histories lie within the accepted bound, so spans
    /// between them can be computed.
    pub open spec fn wf(self) -> bool {
        &&& moments_in_range(self.start_moments@)
        &&& moments_in_range(self.pause_moments@)
    }

    /// The moment the session started: the first resume.
    pub fn start(&self) -> (r: Result<Moment, TrackerError>)
        ensures
            self.start_moments@.len() == 0 ==> r == Err::<Moment, TrackerError>(
                TrackerError::EmptyHistory,
            ),
            self.start_moments@.len() > 0 ==> r == Ok::<Moment, TrackerError>(
                self.start_moments@[0],
            ),
    {
        if self.start_moments.len() == 0 {
            Err(TrackerError::EmptyHistory)
        } else {
            Ok(self.start_moments[0])
        }
    }

    /// The moment the session ended: the last pause.
    pub fn stop(&self) -> (r: Result<Moment, TrackerError>)
        ensures
            self.pause_moments@.len() == 0 ==> r == Err::<Moment, TrackerError>(
                TrackerError::EmptyHistory,
            ),
            self.pause_moments@.len() > 0 ==> r == Ok::<Moment, TrackerError>(
                self.pause_moments@.last(),
            ),
    {
        if self.pause_moments.len() == 0 {
            Err(TrackerError::EmptyHistory)
        } else {
            Ok(self.pause_moments[self.pause_moments.len() - 1])
        }
    }

    /// The duration the session was configured to run: the total.
    pub fn duration_expected(&self) -> (r: Duration)
        ensures
            r == self.total,
    {
        self.total
    }

    /// The wall-clock span the session actually covered, from first resume
    /// to last pause — pauses included. Fails with `EmptyHistory` when
    /// either end is missing.
    pub fn duration_actual(&self) -> (r: Result<Duration, TrackerError>)
        requires
            self.wf(),
        ensures
            self.start_moments@.len() == 0 || self.pause_moments@.len() == 0 ==> r == Err::<
                Duration,
                TrackerError,
            >(TrackerError::EmptyHistory),
            self.start_moments@.len() > 0 && self.pause_moments@.len() > 0 ==> (r matches Ok(d)
                && d.millis == self.pause_moments@.last().millis
                - self.start_moments@[0].millis),
    {
        if self.start_moments.len() == 0 || self.pause_moments.len() == 0 {
            return Err(TrackerError::EmptyHistory);
        }
        let start = self.start_moments[0];
        let stop = self.pause_moments[self.pause_moments.len() - 1];
        proof {
            assert(self.start_moments@[0].in_range());
            assert(self.pause_moments@[self.pause_moments@.len() - 1].in_range());
        }
        Ok(stop.signed_duration_since(&start))
    }
}

/// A countdown timer: a run state and the in-progress session history,
/// whose `remaining` counts down from the configured total.
#[derive(Clone, Debug)]
pub struct Timer {
    /// Whether the timer is paused. It is created paused.
    pub paused: bool,
    /// The in-progress session history.
    pub data: TimerData,
}

/// The relation between a timer before and after a successful resume at
/// moment `m`: `m` is appended to the start moments and the run state flips
/// to running; the banked remainder stays as it was.
pub open spec fn resume_transition(pre: Timer, post: Timer, m: Moment) -> bool {
    &&& !post.paused
    &&& post.data.start_moments@ == pre.data.start_moments@.push(m)
    &&& post.data.pause_moments@ == pre.data.pause_moments@
    &&& post.data.total == pre.data.total
    &&& post.data.remaining == pre.data.remaining
}

/// The relation between a timer before and after a successful pause at
/// moment `m`: `m` is appended to the pause moments, the just-closed
/// interval is subtracted from `remaining`, and the run state flips to
/// paused.
pub open spec fn pause_transition(pre: Timer, post: Timer, m: Moment) -> bool {
    &&& post.paused
    &&& post.data.start_moments@ == pre.data.start_moments@
    &&& post.data.pause_moments@ == pre.data.pause_moments@.push(m)
    &&& post.data.total == pre.data.total
    &&& post.data.remaining.millis == pre.data.remaining.millis - (m.millis - pre.last_start())
}

/// What the record handed back by a stop at moment `m` holds: the full
/// histories, with `m` appended as the final pause only if the timer was
/// still running, and `remaining` exactly as banked at the last pause —
/// the open interval, if any, is deliberately not folded in.
pub open spec fn stop_record(pre: Timer, d: TimerData, m: Moment) -> bool {
    &&& d.total == pre.data.total
    &&& d.remaining == pre.data.remaining
    &&& d.start_moments@ == pre.data.start_moments@
    &&& d.pause_moments@ == if pre.paused {
        pre.data.pause_moments@
    } else {
        pre.data.pause_moments@.push(m)
    }
}

impl Timer {
    /// Whether the timer has been resumed at least once this session.
    pub open spec fn started(self) -> bool {
        self.data.start_moments@.len() > 0
    }

    /// The most recent resume moment, in milliseconds.
    pub open spec fn last_start(self) -> int {
        self.data.start_moments@.last().millis as int
    }

    /// The first resume moment of the session, in milliseconds.
    pub open spec fn first_start(self) -> int {
        self.data.start_moments@[0].millis as int
    }

    /// The most recent pause moment, in milliseconds.
    pub open spec fn last_pause(self) -> int {
        self.data.pause_moments@.last().millis as int
    }

    /// The latest moment recorded anywhere in the session; no new moment
    /// may precede it.
    pub open spec fn latest(self) -> int {
        max(last_or_min(self.data.start_moments@), last_or_min(self.data.pause_moments@))
    }

    /// The moment up to which `remaining` has banked time: the last pause
    /// while paused, the current interval's start while running.
    pub open spec fn cap(self) -> int {
        if !self.paused {
            self.last_start()
        } else {
            self.last_pause()
        }
    }

    /// What `read` returns at moment `now`: the banked remainder, minus
    /// the open interval up to `now` when running. May be negative.
    pub open spec fn read_spec(self, now: int) -> int {
        if self.paused {
            self.data.remaining.millis as int
        } else {
            self.data.remaining.millis - (now - self.last_start())
        }
    }

    /// The timer holds a fresh, empty session: paused at the full total.
    pub open spec fn is_reset(self) -> bool {
        &&& self.paused
        &&& self.data.start_moments@.len() == 0
        &&& self.data.pause_moments@.len() == 0
        &&& self.data.remaining == self.data.total
    }

    /// Well-formedness: the bookkeeping a timer keeps across every
    /// pause/resume cycle.
    ///
    /// The heart of it: `remaining` is exactly the configured total minus
    /// the sum of all closed intervals. The remaining conjuncts keep
    /// moments ordered and bounded so that no duration arithmetic can
    /// overflow.
    pub open spec fn wf(self) -> bool {
        let d = self.data;
        &&& -MOMENT_BOUND <= d.total.millis <= MOMENT_BOUND
        &&& (if self.paused {
            d.pause_moments@.len() == d.start_moments@.len()
        } else {
            d.start_moments@.len() == d.pause_moments@.len() + 1
        })
        &&& moments_in_range(d.start_moments@)
        &&& moments_in_range(d.pause_moments@)
        &&& nondecreasing(d.start_moments@)
        &&& nondecreasing(d.pause_moments@)
        &&& d.remaining.millis == d.total.millis - closed_interval_sum(
            d.start_moments@,
            d.pause_moments@,
        )
        &&& (!self.started() ==> self.is_reset())
        &&& (self.started() ==> 0 <= closed_interval_sum(d.start_moments@, d.pause_moments@)
            && closed_interval_sum(d.start_moments@, d.pause_moments@) <= self.cap()
            - self.first_start())
    }

    /// A new timer: paused at `total` with an empty history. It will not
    /// run until `resume` or `pause_or_resume` is called. The total must
    /// lie within the moment bound, which keeps every later countdown
    /// subtraction inside `i64`.
    pub fn new(total: Duration) -> (r: Self)
        requires
            -MOMENT_BOUND <= total.millis <= MOMENT_BOUND,
        ensures
            r.wf(),
            r.is_reset(),
            r.data.total == total,
    {
        Self {
            paused: true,
            data: TimerData {
                total,
                remaining: total,
                start_moments: Vec::new(),
                pause_moments: Vec::new(),
            },
        }
    }

    /// The latest recorded moment, in milliseconds, or the lower bound if
    /// nothing is recorded yet.
    fn latest_millis(&self) -> (r: i64)
        requires
            self.wf(),
        ensures
            r as int == self.latest(),
    {
        let mut r: i64 = -MOMENT_BOUND;
        let ns = self.data.start_moments.len();
        if ns > 0 {
            let v = self.data.start_moments[ns - 1].millis;
            if v > r {
                r = v;
            }
        }
        let np = self.data.pause_moments.len();
        if np > 0 {
            let v = self.data.pause_moments[np - 1].millis;
            if v > r {
                r = v;
            }
        }
        r
    }

    /// A wall-clock reading clamped so it never precedes anything already
    /// recorded: the tracker treats a backwards-stepping clock as no time
    /// having passed.
    fn now_monotonic(&self) -> (r: Moment)
        requires
            self.wf(),
        ensures
            r.in_range(),
            self.latest() <= r.millis,
    {
        let now = clock::now_moment();
        let floor = self.latest_millis();
        if now.millis < floor {
            Moment { millis: floor }
        } else {
            now
        }
    }

    /// Read the time left: the banked remainder, minus the open interval
    /// up to now when running. Negative means overdue.
    pub fn read(&self) -> (r: Duration)
        requires
            self.wf(),
        ensures
            self.paused ==> r.millis == self.data.remaining.millis,
            !self.paused ==> exists|now: int|
                self.latest() <= now <= MOMENT_BOUND && r.millis == #[trigger] self.read_spec(now),
    {
        let now = self.now_monotonic();
        self.read_at(now)
    }

    /// Read the time left as of `moment`. Negative means overdue.
    pub fn read_at(&self, moment: Moment) -> (r: Duration)
        requires
            self.wf(),
            !self.paused ==> moment.in_range() && self.latest() <= moment.millis,
        ensures
            r.millis == self.read_spec(moment.millis as int),
    {
        if self.paused {
            self.data.remaining
        } else {
            let n = self.data.start_moments.len();
            let last_start = self.data.start_moments[n - 1];
            Duration { millis: self.data.remaining.millis - (moment.millis - last_start.millis) }
        }
    }

    /// Pause or resume, whichever applies: the dispatch can never hit the
    /// wrong-state error.
    pub fn pause_or_resume(&mut self)
        requires
            old(self).wf(),
        ensures
            final(self).wf(),
            old(self).paused ==> exists|m: Moment|
                m.in_range() && old(self).latest() <= m.millis && #[trigger] resume_transition(
                    *old(self),
                    *final(self),
                    m,
                ),
            !old(self).paused ==> exists|m: Moment|
                m.in_range() && old(self).latest() <= m.millis && #[trigger] pause_transition(
                    *old(self),
                    *final(self),
                    m,
                ),
    {
        let now = self.now_monotonic();
        self.pause_or_resume_at(now);
    }

    /// Pause or resume as of `moment`, whichever applies.
    pub fn pause_or_resume_at(&mut self, moment: Moment)
        requires
            old(self).wf(),
            moment.in_range(),
            old(self).latest() <= moment.millis,
        ensures
            final(self).wf(),
            old(self).paused ==> resume_transition(*old(self), *final(self), moment),
            !old(self).paused ==> pause_transition(*old(self), *final(self), moment),
    {
        if self.paused {
            let _ = self.resume_at(moment);
        } else {
            let _ = self.pause_at(moment);
        }
    }

    /// Pause the timer, banking the just-closed interval. Fails with
    /// `EmptyHistory` if the timer was never started, with `InvalidState`
    /// if it is already paused; either way it is left untouched.
    pub fn pause(&mut self) -> (r: Result<(), TrackerError>)
        requires
            old(self).wf(),
        ensures
            final(self).wf(),
            !old(self).started() ==> r == Err::<(), TrackerError>(TrackerError::EmptyHistory)
                && *final(self) == *old(self),
            old(self).started() && old(self).paused ==> r == Err::<(), TrackerError>(
                TrackerError::InvalidState,
            ) && *final(self) == *old(self),
            !old(self).paused ==> r == Ok::<(), TrackerError>(()) && exists|m: Moment|
                m.in_range() && old(self).latest() <= m.millis && #[trigger] pause_transition(
                    *old(self),
                    *final(self),
                    m,
                ),
    {
        let now = self.now_monotonic();
        self.pause_at(now)
    }

    /// Pause the timer as of `moment`, banking the just-closed interval.
    /// Fails with `EmptyHistory` if the timer was never started, with
    /// `InvalidState` if it is already paused; either way it is left
    /// untouched.
    pub fn pause_at(&mut self, moment: Moment) -> (r: Result<(), TrackerError>)
        requires
            old(self).wf(),
            moment.in_range(),
            old(self).latest() <= moment.millis,
        ensures
            final(self).wf(),
            !old(self).started() ==> r == Err::<(), TrackerError>(TrackerError::EmptyHistory)
                && *final(self) == *old(self),
            old(self).started() && old(self).paused ==> r == Err::<(), TrackerError>(
                TrackerError::InvalidState,
            ) && *final(self) == *old(self),
            !old(self).paused ==> r == Ok::<(), TrackerError>(()) && pause_transition(
                *old(self),
                *final(self),
                moment,
            ),
    {
        if self.data.start_moments.len() == 0 {
            return Err(TrackerError::EmptyHistory);
        }
        if self.paused {
            return Err(TrackerError::InvalidState);
        }
        let n = self.data.start_moments.len();
        let last_start = self.data.start_moments[n - 1];
        proof {
            lemma_interval_sum_push_pause(
                self.data.start_moments@,
                self.data.pause_moments@,
                moment,
            );
            lemma_nondecreasing_push(self.data.pause_moments@, moment);
            lemma_moments_in_range_push(self.data.pause_moments@, moment);
        }
        self.data.pause_moments.push(moment);
        self.data.remaining = Duration {
            millis: self.data.remaining.millis - (moment.millis - last_start.millis),
        };
        self.paused = true;
        Ok(())
    }

    /// Resume the timer. Fails with `InvalidState` if it is already
    /// running, leaving it untouched.
    pub fn resume(&mut self) -> (r: Result<(), TrackerError>)
        requires
            old(self).wf(),
        ensures
            final(self).wf(),
            !old(self).paused ==> r == Err::<(), TrackerError>(TrackerError::InvalidState)
                && *final(self) == *old(self),
            old(self).paused ==> r == Ok::<(), TrackerError>(()) && exists|m: Moment|
                m.in_range() && old(self).latest() <= m.millis && #[trigger] resume_transition(
                    *old(self),
                    *final(self),
                    m,
                ),
    {
        let now = self.now_monotonic();
        self.resume_at(now)
    }

    /// Resume the timer as of `moment`. Fails with `InvalidState` if it is
    /// already running, leaving it untouched.
    pub fn resume_at(&mut self, moment: Moment) -> (r: Result<(), TrackerError>)
        requires
            old(self).wf(),
            moment.in_range(),
            old(self).latest() <= moment.millis,
        ensures
            final(self).wf(),
            !old(self).paused ==> r == Err::<(), TrackerError>(TrackerError::InvalidState)
                && *final(self) == *old(self),
            old(self).paused ==> r == Ok::<(), TrackerError>(()) && resume_transition(
                *old(self),
                *final(self),
                moment,
            ),
    {
        if !self.paused {
            return Err(TrackerError::InvalidState);
        }
        proof {
            lemma_interval_sum_push_start(
                self.data.start_moments@,
                self.data.pause_moments@,
                moment,
            );
            lemma_nondecreasing_push(self.data.start_moments@, moment);
            lemma_moments_in_range_push(self.data.start_moments@, moment);
        }
        self.data.start_moments.push(moment);
        self.paused = false;
        Ok(())
    }

    /// Stop the session and hand back its record, resetting the timer to
    /// the full configured total; see the module doc for the stop policy.
    /// Fails with `EmptyHistory` if the timer was never started this
    /// session.
    pub fn stop(&mut self) -> (r: Result<TimerData, TrackerError>)
        requires
            old(self).wf(),
        ensures
            final(self).wf(),
            !old(self).started() ==> r == Err::<TimerData, TrackerError>(
                TrackerError::EmptyHistory,
            ) && *final(self) == *old(self),
            old(self).started() ==> (r matches Ok(d) && final(self).is_reset()
                && final(self).data.total == old(self).data.total && d.wf() && exists|m: Moment|
                m.in_range() && old(self).latest() <= m.millis && #[trigger] stop_record(
                    *old(self),
                    d,
                    m,
                )),
    {
        let now = self.now_monotonic();
        self.stop_at(now)
    }

    /// Stop the session as of `moment`; see `stop`.
    pub fn stop_at(&mut self, moment: Moment) -> (r: Result<TimerData, TrackerError>)
        requires
            old(self).wf(),
            moment.in_range(),
            old(self).latest() <= moment.millis,
        ensures
            final(self).wf(),
            !old(self).started() ==> r == Err::<TimerData, TrackerError>(
                TrackerError::EmptyHistory,
            ) && *final(self) == *old(self),
            old(self).started() ==> (r matches Ok(d) && final(self).is_reset()
                && final(self).data.total == old(self).data.total && d.wf() && stop_record(
                *old(self),
                d,
                moment,
            )),
    {
        if self.data.start_moments.len() == 0 {
            return Err(TrackerError::EmptyHistory);
        }
        if !self.paused {
            proof {
                lemma_nondecreasing_push(self.data.pause_moments@, moment);
                lemma_moments_in_range_push(self.data.pause_moments@, moment);
            }
            self.data.pause_moments.push(moment);
            self.paused = true;
        }
        let total = self.data.total;
        let mut record = TimerData {
            total,
            remaining: total,
            start_moments: Vec::new(),
            pause_moments: Vec::new(),
        };
        core::mem::swap(&mut self.data, &mut record);
        Ok(record)
    }
}

/// Monotonic accumulation: whenever the timer is paused, what it reads — at
/// any moment — is exactly the configured total minus the sum of the closed
/// intervals recorded so far, with no drift and no double counting.
pub proof fn lemma_monotonic_accumulation(t: Timer, now: int)
    requires
        t.wf(),
        t.paused,
    ensures
        t.read_spec(now) == t.data.total.millis - closed_interval_sum(
            t.data.start_moments@,
            t.data.pause_moments@,
        ),
{
}

/// Paused reads are idempotent: while the timer is paused, every read
/// returns the identical value, whatever moments the reads happen at.
pub proof fn lemma_paused_read_stable(t: Timer, now1: int, now2: int)
    requires
        t.paused,
    ensures
        t.read_spec(now1) == t.read_spec(now2),
{
}

/// Countdown symmetry: a timer resumed once and never paused reads, `d`
/// milliseconds after that resume, exactly its total minus `d`.
pub proof fn lemma_countdown_symmetry(t: Timer, d: int)
    requires
        t.wf(),
        !t.paused,
        t.data.pause_moments@.len() == 0,
    ensures
        t.read_spec(t.first_start() + d) == t.data.total.millis - d,
{
    assert(t.data.start_moments@.len() == 1);
    assert(t.data.start_moments@.last() == t.data.start_moments@[0]);
}

/// Round-trip reset: a timer whose session was just stopped reads its
/// construction-time value — the full configured total — at every moment.
pub proof fn lemma_reset_reads_total(t: Timer, now: int)
    requires
        t.is_reset(),
    ensures
        t.read_spec(now) == t.data.total.millis,
{
}

} // verus!
