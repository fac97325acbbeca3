//! Points in time and spans of time, on the proleptic Gregorian UTC line.

use vstd::prelude::*;

verus! {

pub const NANOS_PER_SEC: u32 = 1_000_000_000;

pub const NANOS_PER_MILLI: u32 = 1_000_000;

/// First representable second: January 1 of the year -262143.
pub const MIN_SECS: i64 = -8_334_601_228_800;

/// Last representable second: December 31 of the year 262142, 23:59:59.
pub const MAX_SECS: i64 = 8_210_266_876_799;

/// Whether a point in time, in nanoseconds since the epoch, can be held in a
/// [`DateTime`].
pub open spec fn in_range(stamp: int) -> bool {
    MIN_SECS * NANOS_PER_SEC <= stamp < (MAX_SECS + 1) * NANOS_PER_SEC
}

/// Whether a span in nanoseconds can be held in a [`TimeDelta`]: at most
/// `i64::MAX` milliseconds either way.
pub open spec fn span_in_range(span: int) -> bool {
    -(i64::MAX * NANOS_PER_MILLI) <= span <= i64::MAX * NANOS_PER_MILLI
}

/// A point in time: whole seconds since the Unix epoch, rounded down, and the
/// nanoseconds past them. A second of nanoseconds or more is within a leap second,
/// which comes between the second and the next.
#[derive(Debug, Clone, Copy, PartialEq, Eq, Structural)]
pub struct DateTime {
    secs: i64,
    nanos: u32,
}

/// A signed span of time: whole seconds, rounded down, and the nanoseconds past
/// them.
#[derive(Debug, Clone, Copy, PartialEq, Eq, Structural)]
pub struct TimeDelta {
    secs: i64,
    nanos: u32,
}

/// Why a point in time could not be rounded.
#[derive(Debug, Clone, Copy, PartialEq, Eq, Structural)]
pub enum RoundingError {
    /// The step is not smaller than the point in time.
    DurationExceedsTimestamp,
    /// The step is not positive, or its nanoseconds do not fit in `i64`.
    DurationExceedsLimit,
    /// The nanoseconds since the epoch do not fit in `i64`.
    TimestampExceedsLimit,
}

impl DateTime {
    /// Whole seconds since the Unix epoch, leap seconds left out.
    pub closed spec fn second(self) -> int {
        self.secs as int
    }

    /// Nanoseconds past the whole second.
    pub closed spec fn past(self) -> int {
        self.nanos as int
    }

    /// The point `past` nanoseconds past a second.
    pub closed spec fn of(second: int, past: int) -> DateTime {
        DateTime { secs: second as i64, nanos: past as u32 }
    }

    /// The point is within a leap second.
    pub open spec fn is_leap(self) -> bool {
        self.past() >= NANOS_PER_SEC
    }

    /// Nanoseconds since the Unix epoch. A leap second is counted as if it were the
    /// second that follows it.
    pub open spec fn stamp(self) -> int {
        self.second() * NANOS_PER_SEC + self.past()
    }

    /// The place of the point among all points: a leap second comes after the second
    /// that it follows, and before the next.
    pub open spec fn rank(self) -> int {
        self.second() * 2 * NANOS_PER_SEC + self.past()
    }

    /// The point that many nanoseconds after the epoch, within no leap second.
    pub open spec fn at(stamp: int) -> DateTime {
        DateTime::of(stamp / NANOS_PER_SEC as int, stamp % NANOS_PER_SEC as int)
    }

    /// A point is what it was made of.
    pub broadcast proof fn lemma_of(second: int, past: int)
        requires
            MIN_SECS <= second <= MAX_SECS,
            0 <= past < 2 * NANOS_PER_SEC,
        ensures
            (#[trigger] DateTime::of(second, past)).second() == second,
            DateTime::of(second, past).past() == past,
    {
    }

    /// Points within no leap second and nanoseconds since the epoch correspond one to
    /// one.
    pub broadcast proof fn lemma_at(stamp: int)
        requires
            in_range(stamp),
        ensures
            (#[trigger] DateTime::at(stamp)).stamp() == stamp,
            !DateTime::at(stamp).is_leap(),
    {
    }

    #[verifier::type_invariant]
    spec fn well_formed(self) -> bool {
        &&& self.nanos < 2 * NANOS_PER_SEC
        &&& MIN_SECS <= self.secs <= MAX_SECS
    }

    /// The point `nanos` nanoseconds past second `secs`, if it can be held.
    pub fn from_timestamp(secs: i64, nanos: u32) -> (r: Option<DateTime>)
        ensures
            r is Some <==> nanos < 2 * NANOS_PER_SEC && MIN_SECS <= secs <= MAX_SECS,
            r matches Some(t) ==> t == DateTime::of(secs as int, nanos as int) && t.second() == secs
                && t.past() == nanos,
            nanos < NANOS_PER_SEC ==> (r matches Some(t) ==> t == DateTime::at(
                secs * NANOS_PER_SEC + nanos,
            )),
    {
        if nanos < 2 * NANOS_PER_SEC && MIN_SECS <= secs && secs <= MAX_SECS {
            Some(DateTime { secs, nanos })
        } else {
            None
        }
    }

    /// Whole seconds since the epoch, rounded down.
    pub fn timestamp(&self) -> (r: i64)
        ensures
            r == self.second(),
    {
        self.secs
    }

    /// Nanoseconds past the whole second.
    pub fn timestamp_subsec_nanos(&self) -> (r: u32)
        ensures
            r == self.past(),
    {
        self.nanos
    }

    pub fn before(&self, other: &DateTime) -> (r: bool)
        ensures
            r == (self.rank() < other.rank()),
    {
        proof {
            use_type_invariant(self);
            use_type_invariant(other);
        }
        self.secs < other.secs || (self.secs == other.secs && self.nanos < other.nanos)
    }

    pub fn not_after(&self, other: &DateTime) -> (r: bool)
        ensures
            r == (self.rank() <= other.rank()),
    {
        !other.before(self)
    }

    /// The later of the two points.
    pub fn later_of(self, other: DateTime) -> (r: DateTime)
        ensures
            r == latest(self, other),
    {
        if self.before(&other) {
            other
        } else {
            self
        }
    }

    /// Whether the point `delta` away from this one can be held.
    pub fn can_add(&self, delta: TimeDelta) -> (r: bool)
        ensures
            r == can_shift(*self, delta.span()),
    {
        proof {
            use_type_invariant(self);
            use_type_invariant(&delta);
        }
        let second: i128 = NANOS_PER_SEC as i128;
        let past: i128 = self.nanos as i128;
        let span: i128 = delta.secs as i128 * second + delta.nanos as i128;
        let leap = past >= second;
        if leap && -second < span && span < second && past + span < 2 * second {
            return true;
        }
        let sum: i128 = self.secs as i128 * second + past + span - if leap && span >= 0 {
            second
        } else {
            0
        };
        MIN_SECS as i128 * second <= sum && sum < (MAX_SECS as i128 + 1) * second
    }

    /// The point `delta` away from this one.
    ///
    /// Calls `chrono::DateTime::add`. Trusted: the nanoseconds since the epoch add up
    /// exactly, except that a leap second that is left forwards is not counted, and
    /// that a point within a leap second stays there, or goes into the second before,
    /// where the span is less than a second and does not lead past its end. The call
    /// panics where the sum cannot be held.
    #[verifier::external_body]
    pub(crate) fn plus(self, delta: TimeDelta) -> (r: DateTime)
        requires
            can_shift(self, delta.span()),
        ensures
            r == shifted(self, delta.span()),
    {
        let second = chrono::DateTime::from_timestamp(self.secs, 0).unwrap().naive_utc();
        let time = chrono::Timelike::with_nanosecond(&second, self.nanos).unwrap().and_utc();
        let sum = time + chrono::TimeDelta::new(delta.secs, delta.nanos).unwrap();
        DateTime { secs: sum.timestamp(), nanos: sum.timestamp_subsec_nanos() }
    }

    /// The multiple of `step` nearest to this point.
    ///
    /// Calls `chrono::DurationRound::duration_round`. Trusted: a point half way
    /// between two multiples goes to the later one, where points are told by the
    /// nanoseconds since the epoch; the point is moved there as by addition. The step
    /// must be positive and fit in 64-bit nanoseconds, and so must the point.
    #[verifier::external_body]
    pub(crate) fn duration_round(self, step: TimeDelta) -> (r: Result<DateTime, RoundingError>)
        ensures
            match r {
                Ok(t) => step_usable(step.span()) && stamp_usable(self) && t == rounded_to(
                    self,
                    step.span(),
                ),
                Err(RoundingError::DurationExceedsLimit) => !step_usable(step.span()),
                Err(RoundingError::TimestampExceedsLimit) => step_usable(step.span())
                    && !stamp_usable(self),
                Err(RoundingError::DurationExceedsTimestamp) => false,
            },
    {
        let second = chrono::DateTime::from_timestamp(self.secs, 0).unwrap().naive_utc();
        let time = chrono::Timelike::with_nanosecond(&second, self.nanos).unwrap().and_utc();
        let step = chrono::TimeDelta::new(step.secs, step.nanos).unwrap();
        match chrono::DurationRound::duration_round(time, step) {
            Ok(t) => Ok(DateTime { secs: t.timestamp(), nanos: t.timestamp_subsec_nanos() }),
            Err(chrono::RoundingError::DurationExceedsTimestamp) => Err(RoundingError::DurationExceedsTimestamp),
            Err(chrono::RoundingError::DurationExceedsLimit) => Err(RoundingError::DurationExceedsLimit),
            Err(chrono::RoundingError::TimestampExceedsLimit) => Err(RoundingError::TimestampExceedsLimit),
        }
    }

    /// Milliseconds since the epoch, rounded down.
    ///
    /// Calls `chrono::DateTime::timestamp_millis`. Trusted: the result is the
    /// number of whole milliseconds, a leap second counted like the second after it.
    #[verifier::external_body]
    pub(crate) fn timestamp_millis(&self) -> (r: i64)
        ensures
            r == self.stamp() / NANOS_PER_MILLI as int,
    {
        let second = chrono::DateTime::from_timestamp(self.secs, 0).unwrap().naive_utc();
        let time = chrono::Timelike::with_nanosecond(&second, self.nanos).unwrap().and_utc();
        time.timestamp_millis()
    }

    /// The point `millis` milliseconds after the epoch, if it can be held.
    ///
    /// Calls `chrono::TimeZone::timestamp_millis_opt` of `chrono::Utc`. Trusted:
    /// there is exactly one such point, unless it is out of range.
    #[verifier::external_body]
    pub(crate) fn timestamp_millis_opt(millis: i64) -> (r: Option<DateTime>)
        ensures
            r is Some <==> in_range(millis * NANOS_PER_MILLI),
            r matches Some(t) ==> t == DateTime::at(millis * NANOS_PER_MILLI),
    {
        let t = chrono::TimeZone::timestamp_millis_opt(&chrono::Utc, millis).single()?;
        Some(DateTime { secs: t.timestamp(), nanos: t.timestamp_subsec_nanos() })
    }
}

impl TimeDelta {
    /// The span in nanoseconds.
    pub closed spec fn span(self) -> int {
        self.secs * NANOS_PER_SEC + self.nanos
    }

    #[verifier::type_invariant]
    spec fn well_formed(self) -> bool {
        &&& self.nanos < NANOS_PER_SEC
        &&& span_in_range(self.span())
    }

    /// The span of `secs` seconds and `nanos` nanoseconds, if it can be held.
    pub fn new(secs: i64, nanos: u32) -> (r: Option<TimeDelta>)
        ensures
            r is Some <==> nanos < NANOS_PER_SEC && span_in_range(secs * NANOS_PER_SEC + nanos),
            r matches Some(d) ==> d.span() == secs * NANOS_PER_SEC + nanos,
    {
        if nanos >= NANOS_PER_SEC {
            return None;
        }
        let span: i128 = secs as i128 * 1_000_000_000 + nanos as i128;
        let limit: i128 = i64::MAX as i128 * NANOS_PER_MILLI as i128;
        if -limit <= span && span <= limit {
            Some(TimeDelta { secs, nanos })
        } else {
            None
        }
    }

    /// Whole seconds, rounded down.
    pub fn seconds(&self) -> (r: i64)
        ensures
            r == self.span() / NANOS_PER_SEC as int,
    {
        proof {
            use_type_invariant(self);
        }
        self.secs
    }

    /// Nanoseconds past the whole second.
    pub fn subsec_nanos(&self) -> (r: u32)
        ensures
            r == self.span() % NANOS_PER_SEC as int,
    {
        proof {
            use_type_invariant(self);
        }
        self.nanos
    }
}

/// The later of two points in time; the first if they are the same.
pub open spec fn latest(a: DateTime, b: DateTime) -> DateTime {
    if a.rank() < b.rank() {
        b
    } else {
        a
    }
}

/// A point within a leap second is moved within it, or into the second before.
pub open spec fn stays(t: DateTime, span: int) -> bool {
    t.is_leap() && -NANOS_PER_SEC < span < NANOS_PER_SEC && t.past() + span < 2 * NANOS_PER_SEC
}

/// A point within a leap second is moved past its end.
pub open spec fn escapes(t: DateTime, span: int) -> bool {
    t.is_leap() && span >= 0 && !stays(t, span)
}

/// Where a point goes that is moved by a span, in nanoseconds since the epoch. A leap
/// second that is left forwards is not counted.
pub open spec fn shifted_stamp(t: DateTime, span: int) -> int {
    if escapes(t, span) {
        t.stamp() - NANOS_PER_SEC + span
    } else {
        t.stamp() + span
    }
}

/// The point that a span leads to can be held.
pub open spec fn can_shift(t: DateTime, span: int) -> bool {
    stays(t, span) || in_range(shifted_stamp(t, span))
}

/// The point that a span leads to.
pub open spec fn shifted(t: DateTime, span: int) -> DateTime {
    if stays(t, span) {
        DateTime::of(t.second(), t.past() + span)
    } else {
        DateTime::at(shifted_stamp(t, span))
    }
}

/// A step that a point in time can be rounded to.
pub open spec fn step_usable(step: int) -> bool {
    0 < step <= i64::MAX
}

/// A point in time that can be rounded: its nanoseconds since the epoch fit in `i64`,
/// and so do those of the second after, if they are negative.
pub open spec fn stamp_usable(t: DateTime) -> bool {
    i64::MIN <= t.stamp() <= i64::MAX && i64::MIN <= (t.second() + 1) * NANOS_PER_SEC
}

/// The multiple of `step` nearest to `stamp`, the later of two equally near.
pub open spec fn nearest_multiple(stamp: int, step: int) -> int {
    let down = stamp % step;
    if down == 0 {
        stamp
    } else if step - down <= down {
        stamp + (step - down)
    } else {
        stamp - down
    }
}

/// How far a point is moved by rounding.
pub open spec fn rounding_span(t: DateTime, step: int) -> int {
    nearest_multiple(t.stamp(), step) - t.stamp()
}

/// A point rounded to multiples of `step`.
pub open spec fn rounded_to(t: DateTime, step: int) -> DateTime {
    shifted(t, rounding_span(t, step))
}

proof fn lemma_nearest_multiple(stamp: int, step: int)
    requires
        step_usable(step),
    ensures
        nearest_multiple(stamp, step) % step == 0,
        -step <= 2 * (nearest_multiple(stamp, step) - stamp) <= step,
{
    let down = stamp % step;
    vstd::arithmetic::div_mod::lemma_fundamental_div_mod(stamp, step);
    let q = stamp / step;
    assert(stamp - down == step * q);
    assert(stamp + (step - down) == step * (q + 1)) by (nonlinear_arith)
        requires
            stamp - down == step * q,
    ;
    vstd::arithmetic::div_mod::lemma_mod_multiples_basic(q, step);
    vstd::arithmetic::div_mod::lemma_mod_multiples_basic(q + 1, step);
    assert(step * q == q * step) by (nonlinear_arith);
    assert(step * (q + 1) == (q + 1) * step) by (nonlinear_arith);
}

/// A rounded point is a multiple of the step, at most half a step away from where it
/// was, and rounding it again leaves it there, unless a leap second is left forwards.
pub proof fn law_rounding_is_stable(t: DateTime, step: int)
    requires
        step_usable(step),
        stamp_usable(t),
        MIN_SECS <= t.second() <= MAX_SECS,
        0 <= t.past() < 2 * NANOS_PER_SEC,
        !escapes(t, rounding_span(t, step)),
    ensures
        rounded_to(t, step).stamp() % step == 0,
        -step <= 2 * (rounded_to(t, step).stamp() - t.stamp()) <= step,
        rounded_to(rounded_to(t, step), step) == rounded_to(t, step),
{
    broadcast use {DateTime::lemma_of, DateTime::lemma_at};

    let r = rounded_to(t, step);
    let n = nearest_multiple(t.stamp(), step);
    lemma_nearest_multiple(t.stamp(), step);
    assert(r.stamp() == n);
    assert(rounding_span(r, step) == 0);
    if stays(t, rounding_span(t, step)) {
        if r.is_leap() {
            assert(stays(r, 0));
        } else {
            assert(r.stamp() / NANOS_PER_SEC as int == r.second());
            assert(r.stamp() % NANOS_PER_SEC as int == r.past());
        }
    }
}

/// Rounding keeps the order of points that are within no leap second.
pub proof fn law_rounding_is_monotone(a: DateTime, b: DateTime, step: int)
    requires
        step_usable(step),
        stamp_usable(a),
        stamp_usable(b),
        0 <= a.past() < NANOS_PER_SEC,
        0 <= b.past() < NANOS_PER_SEC,
        a.rank() <= b.rank(),
    ensures
        rounded_to(a, step).rank() <= rounded_to(b, step).rank(),
{
    broadcast use {DateTime::lemma_of, DateTime::lemma_at};

    let x = a.stamp();
    let y = b.stamp();
    vstd::arithmetic::div_mod::lemma_fundamental_div_mod(x, step);
    vstd::arithmetic::div_mod::lemma_fundamental_div_mod(y, step);
    let qx = x / step;
    let qy = y / step;
    vstd::arithmetic::div_mod::lemma_div_is_ordered(x, y, step);
    if qx < qy {
        assert(step * qx + step <= step * qy) by (nonlinear_arith)
            requires
                qx + 1 <= qy,
                step > 0,
        ;
    }
    lemma_nearest_multiple(x, step);
    lemma_nearest_multiple(y, step);
    assert(nearest_multiple(x, step) <= nearest_multiple(y, step));
}

/// Away from leap seconds spans add up: the nanoseconds since the epoch move by the span, a
/// later point stays later, and moving back undoes moving forth.
pub proof fn law_spans_add_up(t: DateTime, span: int, more: int)
    requires
        MIN_SECS <= t.second() <= MAX_SECS,
        0 <= t.past() < NANOS_PER_SEC,
        in_range(t.stamp() + span),
        in_range(t.stamp() + span + more),
    ensures
        shifted(t, span).stamp() == t.stamp() + span,
        !shifted(t, span).is_leap(),
        shifted(shifted(t, span), more) == shifted(t, span + more),
        shifted(shifted(t, span), -span) == shifted(t, 0),
        shifted(t, 0).rank() == t.rank(),
        span > 0 ==> t.rank() < shifted(t, span).rank(),
        span < 0 ==> shifted(t, span).rank() < t.rank(),
        can_shift(t, span),
{
    broadcast use {DateTime::lemma_of, DateTime::lemma_at};

    let a = shifted(t, span);
    assert(a.stamp() == t.stamp() + span);
    assert(t.stamp() / NANOS_PER_SEC as int == t.second());
    assert(t.stamp() % NANOS_PER_SEC as int == t.past());
}

/// The later of two points is one of them, and neither is later than it.
pub proof fn law_later_of_two(a: DateTime, b: DateTime)
    ensures
        latest(a, b) == a || latest(a, b) == b,
        a.rank() <= latest(a, b).rank(),
        b.rank() <= latest(a, b).rank(),
{
}

/// Points come in the order of their seconds, and of the nanoseconds past them; a leap second
/// lies between the second that it follows and the next.
pub proof fn law_order_of_points(a: DateTime, b: DateTime)
    requires
        0 <= a.past() < 2 * NANOS_PER_SEC,
        0 <= b.past() < 2 * NANOS_PER_SEC,
    ensures
        a.rank() < b.rank() <==> a.second() < b.second() || a.second() == b.second() && a.past()
            < b.past(),
        !a.is_leap() && !b.is_leap() ==> (a.rank() < b.rank() <==> a.stamp() < b.stamp()),
        a.is_leap() && b.second() > a.second() ==> a.rank() < b.rank(),
{
}

} // verus!
