//! Deciding, at each clock tick, whether a prayer has just begun and its
//! call should be played.

use vstd::prelude::*;

use crate::clock::Time;
use crate::types::{prayer_index, prayer_order, time_of, Prayer, PrayerTimes};

verus! {

/// A calendar date, as the application's clock reports it.
#[derive(Debug, Clone, Copy, PartialEq, Eq, Structural, Hash)]
pub struct Date {
    pub year: i32,
    pub month: u8,
    pub day: u8,
}

/// Among the first `n` entries of the chronological listing, the last one
/// whose time is at or before `now`.
pub open spec fn latest_passed_among(times: PrayerTimes, now: nat, n: int) -> Option<Prayer>
    decreases n,
{
    if n <= 0 {
        None
    } else if time_of(times, prayer_order()[n - 1])@ <= now {
        Some(prayer_order()[n - 1])
    } else {
        latest_passed_among(times, now, n - 1)
    }
}

/// The last prayer in the chronological listing whose time is at or before
/// `now`, if any.
pub open spec fn latest_passed(times: PrayerTimes, now: nat) -> Option<Prayer> {
    latest_passed_among(times, now, 6)
}

proof fn lemma_latest_passed_among(times: PrayerTimes, now: nat, n: int)
    requires
        0 <= n <= 6,
    ensures
        latest_passed_among(times, now, n) matches Some(p) ==> {
            &&& prayer_index(p) < n
            &&& time_of(times, p)@ <= now
            &&& forall|j: int|
                prayer_index(p) < j < n ==> (#[trigger] time_of(times, prayer_order()[j]))@ > now
        },
        latest_passed_among(times, now, n) is None ==> forall|j: int|
            0 <= j < n ==> (#[trigger] time_of(times, prayer_order()[j]))@ > now,
    decreases n,
{
    if n > 0 {
        lemma_latest_passed_among(times, now, n - 1);
    }
}

/// The latest begun prayer is the last one in the listing whose time has
/// come: its time is at or before `now` and every prayer listed after it
/// is still to come; there is none exactly when no listed time has come.
pub proof fn lemma_latest_passed_is_last_begun(times: PrayerTimes, now: nat)
    ensures
        latest_passed(times, now) matches Some(p) ==> {
            &&& time_of(times, p)@ <= now
            &&& forall|j: int|
                prayer_index(p) < j < 6 ==> (#[trigger] time_of(times, prayer_order()[j]))@ > now
        },
        latest_passed(times, now) is None <==> forall|j: int|
            0 <= j < 6 ==> (#[trigger] time_of(times, prayer_order()[j]))@ > now,
{
    lemma_latest_passed_among(times, now, 6);
    if let Some(p) = latest_passed(times, now) {
        let i = prayer_index(p);
        assert(prayer_order()[i] == p);
        assert(time_of(times, prayer_order()[i])@ <= now);
    }
}

/// The last prayer in the chronological listing whose time has come by
/// `now`.
pub fn latest_passed_prayer(times: &PrayerTimes, now: Time) -> (r: Option<Prayer>)
    ensures
        r == latest_passed(*times, now@),
{
    let list = times.as_array();
    let now_n = now.nanos_since_midnight();
    let mut latest: Option<Prayer> = None;
    let mut i: usize = 0;
    while i < 6
        invariant
            0 <= i <= 6,
            forall|k: int|
                0 <= k < 6 ==> #[trigger] list@[k] == (
                    prayer_order()[k],
                    time_of(*times, prayer_order()[k]),
                ),
            now_n == now@,
            latest == latest_passed_among(*times, now@, i as int),
        decreases 6 - i,
    {
        let (prayer, ptime) = list[i];
        if ptime.nanos_since_midnight() <= now_n {
            latest = Some(prayer);
        }
        i = i + 1;
    }
    latest
}

/// One tick of the announcer. Given the prayer times of `today`, the local
/// time `now`, the day before `today`, and the last (date, prayer) already
/// accounted for, it yields the new last (date, prayer) and the prayer whose
/// call to play, if any.
///
/// On the first tick nothing is played: the latest prayer already begun
/// today (or, before Fajr, the previous day's Isha) is recorded as done.
/// Later, when the latest begun prayer differs from the one recorded, it is
/// recorded and played, except sunrise, which is recorded silently.
pub open spec fn announcement(
    times: PrayerTimes,
    now: nat,
    today: Date,
    yesterday: Date,
    last: Option<(Date, Prayer)>,
) -> (Option<(Date, Prayer)>, Option<Prayer>) {
    let passed = latest_passed(times, now);
    if last is None {
        match passed {
            Some(p) => (Some((today, p)), None),
            None => (Some((yesterday, Prayer::Isha)), None),
        }
    } else {
        match passed {
            Some(p) => if last != Some((today, p)) {
                (Some((today, p)), if p != Prayer::Sunrise {
                    Some(p)
                } else {
                    None
                })
            } else {
                (last, None)
            },
            None => (last, None),
        }
    }
}

/// Decides one tick of the announcer; see `announcement`.
pub fn announcement_step(
    times: &PrayerTimes,
    now: Time,
    today: Date,
    yesterday: Date,
    last: Option<(Date, Prayer)>,
) -> (r: (Option<(Date, Prayer)>, Option<Prayer>))
    ensures
        r == announcement(*times, now@, today, yesterday, last),
{
    let passed = latest_passed_prayer(times, now);
    match last {
        None => match passed {
            Some(p) => (Some((today, p)), None),
            None => (Some((yesterday, Prayer::Isha)), None),
        },
        Some((last_date, last_prayer)) => match passed {
            Some(p) => {
                if last_date == today && last_prayer == p {
                    (last, None)
                } else {
                    let play = match p {
                        Prayer::Sunrise => None,
                        _ => Some(p),
                    };
                    (Some((today, p)), play)
                }
            },
            None => (last, None),
        },
    }
}

/// The announcer never plays a call for sunrise, plays nothing on its
/// first tick, and records every prayer it plays as the last one handled.
pub proof fn lemma_announcement_plays_recorded_prayer(
    times: PrayerTimes,
    now: nat,
    today: Date,
    yesterday: Date,
    last: Option<(Date, Prayer)>,
)
    ensures
        ({
            let (next_last, play) = announcement(times, now, today, yesterday, last);
            &&& play != Some(Prayer::Sunrise)
            &&& last is None ==> play is None
            &&& play matches Some(p) ==> next_last == Some((today, p)) && last != next_last
            &&& next_last is Some
        }),
{
}

/// On a tick after the first, when the latest begun prayer `p` is not the
/// one recorded for today, `p` is recorded for today and its call is
/// played, for every prayer but sunrise, which is recorded silently; when
/// it is the one recorded, nothing changes and nothing plays.
pub proof fn lemma_new_prayer_is_announced(
    times: PrayerTimes,
    now: nat,
    today: Date,
    yesterday: Date,
    last: Option<(Date, Prayer)>,
    p: Prayer,
)
    requires
        last is Some,
        latest_passed(times, now) == Some(p),
    ensures
        ({
            let (next_last, play) = announcement(times, now, today, yesterday, last);
            &&& last != Some((today, p)) ==> next_last == Some((today, p))
            &&& last != Some((today, p)) && p != Prayer::Sunrise ==> play == Some(p)
            &&& p == Prayer::Sunrise ==> play is None
            &&& last == Some((today, p)) ==> next_last == last && play is None
        }),
{
}

/// On the first tick nothing plays, and the latest begun prayer is recorded
/// for today; before any prayer has begun, the previous day's Isha is.
pub proof fn lemma_first_tick_records_without_playing(
    times: PrayerTimes,
    now: nat,
    today: Date,
    yesterday: Date,
)
    ensures
        ({
            let (next_last, play) = announcement(times, now, today, yesterday, None);
            &&& play is None
            &&& latest_passed(times, now) matches Some(p) ==> next_last == Some((today, p))
            &&& latest_passed(times, now) is None ==> next_last == Some((yesterday, Prayer::Isha))
        }),
{
}

/// A second tick at the same moment plays nothing and changes nothing: each
/// prayer's call is played at most once.
pub proof fn lemma_announcement_settles(
    times: PrayerTimes,
    now: nat,
    today: Date,
    yesterday: Date,
    last: Option<(Date, Prayer)>,
)
    ensures
        ({
            let (next_last, _) = announcement(times, now, today, yesterday, last);
            announcement(times, now, today, yesterday, next_last) == (next_last, None::<Prayer>)
        }),
{
}

} // verus!
