use vstd::prelude::*;

use crate::clock::{Duration, Time, NANOS_PER_DAY, NANOS_PER_MINUTE, NANOS_PER_SECOND};
use crate::types::{prayer_index, prayer_order, time_of, Prayer, PrayerTimes};

verus! {

/// Minutes in one day.
pub const MINUTES_PER_DAY: i64 = 1440;

/// The whole seconds elapsed since midnight at time `t`.
pub fn time_to_secs(t: Time) -> (s: i64)
    ensures
        s == t@ / (NANOS_PER_SECOND as nat),
        0 <= s < 86_400,
{
    let n = t.nanos_since_midnight();
    (n / NANOS_PER_SECOND) as i64
}

/// The time of day reached `total_minutes` minutes after a midnight,
/// counted modulo one day (negative counts go back from midnight).
pub fn time_from_minutes(total_minutes: i64) -> (t: Time)
    ensures
        t@ == ((total_minutes as int) % (MINUTES_PER_DAY as int)) * NANOS_PER_MINUTE,
{
    let wrapped: u64 = if total_minutes >= 0 {
        total_minutes as u64 % 1440
    } else {
        let back: u64 = (-(total_minutes + 1)) as u64;
        let m: u64 = back % 1440;
        proof {
            lemma_negative_wrap(back as int, total_minutes as int);
        }
        1439 - m
    };
    let hour = (wrapped / 60) as u8;
    let minute = (wrapped % 60) as u8;
    match Time::from_hms(hour, minute, 0) {
        Some(t) => t,
        None => {
            assert(false);
            Time::midnight()
        },
    }
}

proof fn lemma_negative_wrap(back: int, total: int)
    requires
        back >= 0,
        total == -(back + 1),
    ensures
        total % 1440 == 1439 - back % 1440,
{
    assert(total == (-(back / 1440) - 1) * 1440 + (1439 - back % 1440)) by (nonlinear_arith)
        requires
            total == -(back + 1),
            back >= 0,
    {
        assert(back == (back / 1440) * 1440 + back % 1440);
    }
    vstd::arithmetic::div_mod::lemma_fundamental_div_mod_converse(
        total,
        1440,
        -(back / 1440) - 1,
        1439 - back % 1440,
    );
}

/// Minute counts a whole day apart give the same time of day.
pub proof fn lemma_time_from_minutes_periodic(total_minutes: int)
    ensures
        (total_minutes + MINUTES_PER_DAY) % (MINUTES_PER_DAY as int) == total_minutes % (
        MINUTES_PER_DAY as int),
{
    vstd::arithmetic::div_mod::lemma_mod_add_multiples_vanish(total_minutes, 1440);
}

/// Adding `k` minutes to a minute count moves the resulting time of day
/// `k` minutes around the clock: an adjustment shifts a time by exactly its
/// number of minutes.
pub proof fn lemma_time_from_minutes_shift(total_minutes: int, k: int)
    ensures
        (total_minutes + k) % (MINUTES_PER_DAY as int) == (total_minutes % (MINUTES_PER_DAY as int)
            + k) % (MINUTES_PER_DAY as int),
{
    vstd::arithmetic::div_mod::lemma_add_mod_noop(total_minutes, k, 1440);
    vstd::arithmetic::div_mod::lemma_add_mod_noop(total_minutes % 1440, k, 1440);
    vstd::arithmetic::div_mod::lemma_mod_twice(total_minutes, 1440);
}

/// Whether some listed time comes strictly after `now` (nanoseconds since
/// midnight).
pub open spec fn has_time_after(times: PrayerTimes, now: nat) -> bool {
    exists|i: int| 0 <= i < 6 && (#[trigger] time_of(times, prayer_order()[i]))@ > now
}

/// Scanning the listing from position `i`: the first prayer whose time is
/// strictly after `now`, or Fajr when none is.
pub open spec fn upcoming_from(times: PrayerTimes, now: nat, i: int) -> (Prayer, Time)
    decreases 6 - i,
{
    if i >= 6 {
        (Prayer::Fajr, times.fajr)
    } else if time_of(times, prayer_order()[i])@ > now {
        (prayer_order()[i], time_of(times, prayer_order()[i]))
    } else {
        upcoming_from(times, now, i + 1)
    }
}

/// The prayer that comes next after `now`: the first in chronological
/// listing order whose time is strictly later, or the next day's Fajr.
pub open spec fn upcoming_prayer(times: PrayerTimes, now: nat) -> (Prayer, Time) {
    upcoming_from(times, now, 0)
}

/// The prayer whose time comes first (in chronological listing order) among
/// those strictly after `now`; the next day's Fajr when none is left today.
pub fn next_prayer(times: &PrayerTimes, now: Time) -> (r: (Prayer, Time))
    ensures
        has_time_after(*times, now@) ==> {
            &&& r.1 == time_of(*times, r.0)
            &&& r.1@ > now@
            &&& forall|j: int|
                0 <= j < prayer_index(r.0) ==> (#[trigger] time_of(*times, prayer_order()[j]))@
                    <= now@
        },
        !has_time_after(*times, now@) ==> r == (Prayer::Fajr, times.fajr),
        r == upcoming_prayer(*times, now@),
{
    let list = times.as_array();
    let now_n = now.nanos_since_midnight();
    let mut i: usize = 0;
    while i < 6
        invariant
            0 <= i <= 6,
            forall|k: int|
                0 <= k < 6 ==> #[trigger] list@[k] == (
                    prayer_order()[k],
                    time_of(*times, prayer_order()[k]),
                ),
            forall|j: int|
                0 <= j < i ==> (#[trigger] time_of(*times, prayer_order()[j]))@ <= now@,
            now_n == now@,
            upcoming_from(*times, now@, 0) == upcoming_from(*times, now@, i as int),
        decreases 6 - i,
    {
        let (p, t) = list[i];
        if t.nanos_since_midnight() > now_n {
            assert(prayer_index(prayer_order()[i as int]) == i);
            return (p, t);
        }
        i = i + 1;
    }
    assert(!has_time_after(*times, now@));
    (Prayer::Fajr, times.fajr)
}

/// The nanoseconds from `now` until the next occurrence of the time of day
/// `target`: later today when it is after `now`, otherwise tomorrow.
pub open spec fn wait_nanos(target: nat, now: nat) -> int {
    if target > now {
        target - now
    } else {
        target - now + NANOS_PER_DAY
    }
}

/// The span from `now` until the next occurrence of `target`: later today
/// when `target` is after `now`, otherwise tomorrow (a full day when equal).
pub fn time_until(target: Time, now: Time) -> (d: Duration)
    ensures
        d@ == wait_nanos(target@, now@),
        0 < d@ <= NANOS_PER_DAY,
{
    let t = target.nanos_since_midnight();
    let n = now.nanos_since_midnight();
    if t > n {
        Duration::nanoseconds((t - n) as i64)
    } else {
        Duration::nanoseconds((t as i64 - n as i64) + 86_400_000_000_000)
    }
}

/// The wait until a target time is positive, at most one day, and lands
/// exactly on the target's time of day.
pub proof fn lemma_time_until_lands_on_target(target: Time, now: Time, d: int)
    requires
        target@ < NANOS_PER_DAY,
        now@ < NANOS_PER_DAY,
        d == wait_nanos(target@, now@),
    ensures
        0 < d <= NANOS_PER_DAY,
        (now@ + d) % (NANOS_PER_DAY as int) == target@,
{
    if target@ > now@ {
        vstd::arithmetic::div_mod::lemma_small_mod(target@, NANOS_PER_DAY as nat);
    } else {
        vstd::arithmetic::div_mod::lemma_mod_add_multiples_vanish(target@ as int, NANOS_PER_DAY as int);
        vstd::arithmetic::div_mod::lemma_small_mod(target@, NANOS_PER_DAY as nat);
    }
}

} // verus!
