use vstd::prelude::*;

verus! {

/// Nanoseconds in one second.
pub const NANOS_PER_SECOND: u64 = 1_000_000_000;

/// Nanoseconds in one minute.
pub const NANOS_PER_MINUTE: u64 = 60_000_000_000;

/// Nanoseconds in one hour.
pub const NANOS_PER_HOUR: u64 = 3_600_000_000_000;

/// Nanoseconds in one day.
pub const NANOS_PER_DAY: u64 = 86_400_000_000_000;

/// A wall-clock time of day, from midnight (inclusive) to the next
/// midnight (exclusive), with nanosecond precision.
#[derive(Debug, Clone, Copy, PartialEq, Eq, Hash)]
pub struct Time {
    nanos: u64,
}

impl View for Time {
    type V = nat;

    /// Nanoseconds elapsed since midnight.
    closed spec fn view(&self) -> nat {
        self.nanos as nat
    }
}

impl Time {
    #[verifier::type_invariant]
    spec fn within_day(self) -> bool {
        self.nanos < NANOS_PER_DAY
    }

    /// Midnight, the first instant of the day.
    pub fn midnight() -> (t: Time)
        ensures
            t@ == 0,
    {
        Time { nanos: 0 }
    }

    /// Builds a time from hour, minute and second; `None` unless
    /// `hour < 24`, `minute < 60` and `second < 60`.
    pub fn from_hms(hour: u8, minute: u8, second: u8) -> (r: Option<Time>)
        ensures
            r is Some <==> (hour < 24 && minute < 60 && second < 60),
            r matches Some(t) ==> t@ == hms_nanos(hour as int, minute as int, second as int, 0),
    {
        Self::from_hms_nano(hour, minute, second, 0)
    }

    /// Builds a time from hour, minute, second and nanosecond; `None` unless
    /// every component is within its range.
    pub fn from_hms_nano(hour: u8, minute: u8, second: u8, nanosecond: u32) -> (r: Option<Time>)
        ensures
            r is Some <==> (hour < 24 && minute < 60 && second < 60 && nanosecond < 1_000_000_000),
            r matches Some(t) ==> t@ == hms_nanos(
                hour as int,
                minute as int,
                second as int,
                nanosecond as int,
            ),
    {
        if hour < 24 && minute < 60 && second < 60 && nanosecond < 1_000_000_000 {
            let nanos = hour as u64 * NANOS_PER_HOUR + minute as u64 * NANOS_PER_MINUTE
                + second as u64 * NANOS_PER_SECOND + nanosecond as u64;
            Some(Time { nanos })
        } else {
            None
        }
    }

    /// Nanoseconds elapsed since midnight.
    pub fn nanos_since_midnight(&self) -> (n: u64)
        ensures
            n == self@,
            n < NANOS_PER_DAY,
    {
        proof {
            use_type_invariant(self);
        }
        self.nanos
    }

    /// The hour of the day, `0..24`.
    pub fn hour(&self) -> (h: u8)
        ensures
            h == self@ / (NANOS_PER_HOUR as nat),
            h < 24,
    {
        proof {
            use_type_invariant(self);
        }
        (self.nanos / NANOS_PER_HOUR) as u8
    }

    /// The minute within the hour, `0..60`.
    pub fn minute(&self) -> (m: u8)
        ensures
            m == (self@ / (NANOS_PER_MINUTE as nat)) % 60,
            m < 60,
    {
        proof {
            use_type_invariant(self);
        }
        ((self.nanos / NANOS_PER_MINUTE) % 60) as u8
    }

    /// The second within the minute, `0..60`.
    pub fn second(&self) -> (s: u8)
        ensures
            s == (self@ / (NANOS_PER_SECOND as nat)) % 60,
            s < 60,
    {
        proof {
            use_type_invariant(self);
        }
        ((self.nanos / NANOS_PER_SECOND) % 60) as u8
    }

    /// The nanosecond within the second, `0..1_000_000_000`.
    pub fn nanosecond(&self) -> (n: u32)
        ensures
            n == self@ % (NANOS_PER_SECOND as nat),
            n < 1_000_000_000,
    {
        proof {
            use_type_invariant(self);
        }
        (self.nanos % NANOS_PER_SECOND) as u32
    }

    /// Hour, minute and second of this time.
    pub fn as_hms(&self) -> (r: (u8, u8, u8))
        ensures
            r.0 == self@ / (NANOS_PER_HOUR as nat),
            r.1 == (self@ / (NANOS_PER_MINUTE as nat)) % 60,
            r.2 == (self@ / (NANOS_PER_SECOND as nat)) % 60,
    {
        (self.hour(), self.minute(), self.second())
    }
}

/// The nanoseconds since midnight of the given clock reading.
pub open spec fn hms_nanos(hour: int, minute: int, second: int, nanosecond: int) -> int {
    hour * NANOS_PER_HOUR + minute * NANOS_PER_MINUTE + second * NANOS_PER_SECOND + nanosecond
}

/// Reading a clock back gives what it was set to: the nanoseconds of an
/// in-range hour, minute, second and nanosecond fall within one day, and
/// the hour, minute, second and nanosecond read from them are the ones
/// given.
pub proof fn lemma_hms_round_trip(hour: int, minute: int, second: int, nanosecond: int)
    requires
        0 <= hour < 24,
        0 <= minute < 60,
        0 <= second < 60,
        0 <= nanosecond < NANOS_PER_SECOND,
    ensures
        ({
            let t = hms_nanos(hour, minute, second, nanosecond);
            &&& 0 <= t < NANOS_PER_DAY
            &&& t / (NANOS_PER_HOUR as int) == hour
            &&& (t / (NANOS_PER_MINUTE as int)) % 60 == minute
            &&& (t / (NANOS_PER_SECOND as int)) % 60 == second
            &&& t % (NANOS_PER_SECOND as int) == nanosecond
        }),
{
    let t = hms_nanos(hour, minute, second, nanosecond);
    let within_second = nanosecond;
    let within_minute = second * NANOS_PER_SECOND + nanosecond;
    let within_hour = minute * NANOS_PER_MINUTE + within_minute;
    assert(0 <= within_minute < NANOS_PER_MINUTE) by (nonlinear_arith)
        requires
            0 <= second < 60,
            0 <= nanosecond < 1_000_000_000,
            within_minute == second * 1_000_000_000 + nanosecond,
    ;
    assert(0 <= within_hour < NANOS_PER_HOUR) by (nonlinear_arith)
        requires
            0 <= minute < 60,
            0 <= within_minute < 60_000_000_000,
            within_hour == minute * 60_000_000_000 + within_minute,
    ;
    assert(0 <= t < NANOS_PER_DAY) by (nonlinear_arith)
        requires
            0 <= hour < 24,
            0 <= within_hour < 3_600_000_000_000,
            t == hour * 3_600_000_000_000 + within_hour,
    ;
    vstd::arithmetic::div_mod::lemma_fundamental_div_mod_converse(
        t,
        NANOS_PER_HOUR as int,
        hour,
        within_hour,
    );
    let minutes = hour * 60 + minute;
    assert(t == minutes * NANOS_PER_MINUTE + within_minute) by (nonlinear_arith)
        requires
            t == hour * 3_600_000_000_000 + minute * 60_000_000_000 + within_minute,
            minutes == hour * 60 + minute,
    ;
    vstd::arithmetic::div_mod::lemma_fundamental_div_mod_converse(
        t,
        NANOS_PER_MINUTE as int,
        minutes,
        within_minute,
    );
    vstd::arithmetic::div_mod::lemma_fundamental_div_mod_converse(minutes, 60, hour, minute);
    let seconds = minutes * 60 + second;
    assert(t == seconds * NANOS_PER_SECOND + within_second) by (nonlinear_arith)
        requires
            t == minutes * 60_000_000_000 + second * 1_000_000_000 + within_second,
            seconds == minutes * 60 + second,
    ;
    vstd::arithmetic::div_mod::lemma_fundamental_div_mod_converse(
        t,
        NANOS_PER_SECOND as int,
        seconds,
        within_second,
    );
    vstd::arithmetic::div_mod::lemma_fundamental_div_mod_converse(seconds, 60, minutes, second);
}

/// The longest span a `Duration` holds, in nanoseconds: whole seconds that
/// fit an `i64`, plus up to one second less a nanosecond.
pub open spec fn max_duration_nanos() -> int {
    (i64::MAX as int) * (NANOS_PER_SECOND as int) + (NANOS_PER_SECOND as int) - 1
}

/// The most negative span a `Duration` holds, in nanoseconds.
pub open spec fn min_duration_nanos() -> int {
    (i64::MIN as int) * (NANOS_PER_SECOND as int) - (NANOS_PER_SECOND as int) + 1
}

/// A signed span of time with nanosecond precision, whose whole seconds fit
/// an `i64`.
#[derive(Debug, Clone, Copy, PartialEq, Eq, Hash)]
pub struct Duration {
    nanos: i128,
}

impl View for Duration {
    type V = int;

    /// The length of the span in nanoseconds.
    closed spec fn view(&self) -> int {
        self.nanos as int
    }
}

/// `a / b` rounded toward zero, as Rust's integer division does.
pub open spec fn div_toward_zero(a: int, b: int) -> int
    recommends
        b > 0,
{
    if a >= 0 {
        a / b
    } else {
        -((-a) / b)
    }
}

impl Duration {
    #[verifier::type_invariant]
    spec fn seconds_fit(self) -> bool {
        min_duration_nanos() <= self.nanos <= max_duration_nanos()
    }

    /// A span of the given number of nanoseconds.
    pub fn nanoseconds(nanos: i64) -> (d: Duration)
        ensures
            d@ == nanos,
    {
        Duration { nanos: nanos as i128 }
    }

    /// A span of the given number of seconds.
    pub fn seconds(seconds: i64) -> (d: Duration)
        ensures
            d@ == seconds * NANOS_PER_SECOND,
    {
        assert(min_duration_nanos() <= seconds * 1_000_000_000 <= max_duration_nanos()) by (nonlinear_arith)
            requires
                i64::MIN <= seconds <= i64::MAX,
        ;
        Duration { nanos: seconds as i128 * 1_000_000_000 }
    }

    /// A span of the given number of hours; the hours, counted in seconds,
    /// must fit an `i64`.
    pub fn hours(hours: i64) -> (d: Duration)
        requires
            i64::MIN <= hours * 3600 <= i64::MAX,
        ensures
            d@ == hours * NANOS_PER_HOUR,
    {
        assert(min_duration_nanos() <= hours * 3_600_000_000_000 <= max_duration_nanos()) by (nonlinear_arith)
            requires
                i64::MIN <= hours * 3600 <= i64::MAX,
        ;
        Duration { nanos: hours as i128 * 3_600_000_000_000 }
    }

    /// The length in nanoseconds.
    pub fn whole_nanoseconds(&self) -> (n: i128)
        ensures
            n == self@,
    {
        self.nanos
    }

    /// The number of whole seconds in the span, rounded toward zero.
    pub fn whole_seconds(&self) -> (s: i64)
        ensures
            s == div_toward_zero(self@, NANOS_PER_SECOND as int),
    {
        proof {
            use_type_invariant(self);
        }
        Self::div_nanos(self.nanos, NANOS_PER_SECOND)
    }

    /// The number of whole minutes in the span, rounded toward zero.
    pub fn whole_minutes(&self) -> (m: i64)
        ensures
            m == div_toward_zero(self@, NANOS_PER_MINUTE as int),
    {
        proof {
            use_type_invariant(self);
        }
        Self::div_nanos(self.nanos, NANOS_PER_MINUTE)
    }

    /// The number of whole hours in the span, rounded toward zero.
    pub fn whole_hours(&self) -> (h: i64)
        ensures
            h == div_toward_zero(self@, NANOS_PER_HOUR as int),
    {
        proof {
            use_type_invariant(self);
        }
        Self::div_nanos(self.nanos, NANOS_PER_HOUR)
    }

    fn div_nanos(nanos: i128, unit: u64) -> (q: i64)
        requires
            unit >= NANOS_PER_SECOND,
            min_duration_nanos() <= nanos <= max_duration_nanos(),
        ensures
            q == div_toward_zero(nanos as int, unit as int),
    {
        let magnitude: u128 = if nanos >= 0 {
            nanos as u128
        } else {
            (-nanos) as u128
        };
        let q: u128 = magnitude / (unit as u128);
        assert(q <= 9_223_372_036_854_775_808u128) by (nonlinear_arith)
            requires
                q == magnitude / (unit as u128),
                magnitude <= 9_223_372_036_854_775_808 * 1_000_000_000 + 999_999_999,
                unit >= 1_000_000_000,
        {
            assert(magnitude / (unit as u128) <= magnitude / 1_000_000_000);
        }
        if nanos >= 0 {
            assert(q <= 9_223_372_036_854_775_807u128) by (nonlinear_arith)
                requires
                    q == magnitude / (unit as u128),
                    magnitude <= 9_223_372_036_854_775_807 * 1_000_000_000 + 999_999_999,
                    unit >= 1_000_000_000,
            {
                assert(magnitude / (unit as u128) <= magnitude / 1_000_000_000);
            }
            q as i64
        } else {
            -(q as i128) as i64
        }
    }
}

} // verus!
