use vstd::prelude::*;

verus! {

/// Bound, in milliseconds, on the magnitude of any wall-clock moment the
/// trackers record (2^61 ms, about 73 million years either side of the
/// epoch). The system clock reads far inside this bound, and keeping every
/// recorded moment within it is what makes all duration arithmetic free of
/// overflow.
pub const MOMENT_BOUND: i64 = 0x2000_0000_0000_0000;

/// A signed span of time, in whole milliseconds.
#[derive(Clone, Copy, Debug, PartialEq, Eq, Structural)]
pub struct Duration {
    pub millis: i64,
}

impl Duration {
    /// The zero-length span.
    pub fn zero() -> (r: Duration)
        ensures
            r.millis == 0,
    {
        Duration { millis: 0 }
    }

    /// A span of `ms` milliseconds.
    pub fn milliseconds(ms: i64) -> (r: Duration)
        ensures
            r.millis == ms,
    {
        Duration { millis: ms }
    }

    /// A span of `s` seconds.
    pub fn seconds(s: i64) -> (r: Duration)
        requires
            i64::MIN <= s * 1000 <= i64::MAX,
        ensures
            r.millis == s * 1000,
    {
        Duration { millis: s * 1000 }
    }

    /// The whole number of milliseconds in the span.
    pub fn num_milliseconds(&self) -> (r: i64)
        ensures
            r == self.millis,
    {
        self.millis
    }

    /// Whether the span is exactly zero.
    pub fn is_zero(&self) -> (r: bool)
        ensures
            r == (self.millis == 0),
    {
        self.millis == 0
    }
}

/// A point in time: a wall-clock reading in milliseconds since the Unix
/// epoch. Moments are ordered, and two moments subtract to a `Duration`.
#[derive(Clone, Copy, Debug, PartialEq, Eq, Structural)]
pub struct Moment {
    pub millis: i64,
}

impl Moment {
    /// Whether the moment lies within the bound the trackers accept.
    pub open spec fn in_range(self) -> bool {
        -MOMENT_BOUND <= self.millis <= MOMENT_BOUND
    }

    /// The moment `ms` milliseconds after the epoch.
    pub fn from_millis(ms: i64) -> (r: Moment)
        ensures
            r.millis == ms,
    {
        Moment { millis: ms }
    }

    /// The signed span from `earlier` up to this moment.
    pub fn signed_duration_since(&self, earlier: &Moment) -> (r: Duration)
        requires
            self.in_range(),
            earlier.in_range(),
        ensures
            r.millis == self.millis - earlier.millis,
    {
        Duration { millis: self.millis - earlier.millis }
    }
}

/// Every moment of the sequence lies within the accepted bound.
pub open spec fn moments_in_range(ms: Seq<Moment>) -> bool {
    forall|i: int| 0 <= i < ms.len() ==> (#[trigger] ms[i]).in_range()
}

/// The moments of the sequence never step backwards.
pub open spec fn nondecreasing(ms: Seq<Moment>) -> bool {
    forall|i: int, j: int| 0 <= i <= j < ms.len() ==> (#[trigger] ms[i]).millis <= (#[trigger] ms[j]).millis
}

/// The last moment of the sequence, or the lower bound when it is empty.
/// Trackers use this to say that a new moment may not precede anything
/// already recorded.
pub open spec fn last_or_min(ms: Seq<Moment>) -> int {
    if ms.len() == 0 {
        -MOMENT_BOUND as int
    } else {
        ms.last().millis as int
    }
}

/// The total length, in milliseconds, of the closed intervals of a session:
/// the sum of `pauses[i] - starts[i]` over every pause recorded so far. A
/// running tracker has one more start than pauses; that open interval is not
/// counted here.
pub open spec fn closed_interval_sum(starts: Seq<Moment>, pauses: Seq<Moment>) -> int
    decreases pauses.len(),
{
    if pauses.len() == 0 {
        0
    } else {
        closed_interval_sum(starts, pauses.drop_last()) + pauses.last().millis
            - starts[pauses.len() - 1].millis
    }
}

/// The sum, in milliseconds, of a sequence of durations.
pub open spec fn duration_sum(ds: Seq<Duration>) -> int
    decreases ds.len(),
{
    if ds.len() == 0 {
        0
    } else {
        duration_sum(ds.drop_last()) + ds.last().millis
    }
}

/// Appending a start moment leaves the closed-interval sum unchanged, as
/// long as every recorded pause already has its start.
pub proof fn lemma_interval_sum_push_start(starts: Seq<Moment>, pauses: Seq<Moment>, m: Moment)
    requires
        pauses.len() <= starts.len(),
    ensures
        closed_interval_sum(starts.push(m), pauses) == closed_interval_sum(starts, pauses),
    decreases pauses.len(),
{
    if pauses.len() > 0 {
        lemma_interval_sum_push_start(starts, pauses.drop_last(), m);
    }
}

/// Appending a pause moment closes the interval opened by the matching
/// start, and adds exactly that interval's length to the sum.
pub proof fn lemma_interval_sum_push_pause(starts: Seq<Moment>, pauses: Seq<Moment>, m: Moment)
    ensures
        closed_interval_sum(starts, pauses.push(m)) == closed_interval_sum(starts, pauses)
            + m.millis - starts[pauses.len() as int].millis,
{
    assert(pauses.push(m).drop_last() =~= pauses);
    assert(pauses.push(m).last() == m);
}

/// Appending a duration adds its length to the sum.
pub proof fn lemma_duration_sum_push(ds: Seq<Duration>, d: Duration)
    ensures
        duration_sum(ds.push(d)) == duration_sum(ds) + d.millis,
{
    assert(ds.push(d).drop_last() =~= ds);
    assert(ds.push(d).last() == d);
}

/// A sum of nonnegative durations is nonnegative.
pub proof fn lemma_duration_sum_nonneg(ds: Seq<Duration>)
    requires
        forall|i: int| 0 <= i < ds.len() ==> 0 <= (#[trigger] ds[i]).millis,
    ensures
        0 <= duration_sum(ds),
    decreases ds.len(),
{
    if ds.len() > 0 {
        lemma_duration_sum_nonneg(ds.drop_last());
    }
}

/// Appending a moment no earlier than the last keeps a sequence
/// nondecreasing.
pub proof fn lemma_nondecreasing_push(ms: Seq<Moment>, m: Moment)
    requires
        nondecreasing(ms),
        ms.len() > 0 ==> ms.last().millis <= m.millis,
    ensures
        nondecreasing(ms.push(m)),
{
    let pushed = ms.push(m);
    assert forall|i: int, j: int|
        0 <= i <= j < pushed.len() implies (#[trigger] pushed[i]).millis
        <= (#[trigger] pushed[j]).millis by {
        if j < ms.len() {
        } else if i < ms.len() {
            assert(ms[i].millis <= ms[ms.len() - 1].millis);
        }
    }
}

/// Appending an in-range moment keeps every moment in range.
pub proof fn lemma_moments_in_range_push(ms: Seq<Moment>, m: Moment)
    requires
        moments_in_range(ms),
        m.in_range(),
    ensures
        moments_in_range(ms.push(m)),
{
    let pushed = ms.push(m);
    assert forall|i: int| 0 <= i < pushed.len() implies (#[trigger] pushed[i]).in_range() by {
        if i < ms.len() {
            assert(ms[i].in_range());
        }
    }
}

} // verus!
