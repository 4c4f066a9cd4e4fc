use athan::clock::{Duration, Time};
use athan::format::{format_clock, format_duration, format_time};
use athan::prayer::{next_prayer, time_from_minutes, time_to_secs, time_until};
use athan::types::{Prayer, PrayerTimes};

fn t(h: u8, m: u8, s: u8) -> Time {
    Time::from_hms(h, m, s).unwrap()
}

fn sample_times() -> PrayerTimes {
    PrayerTimes {
        fajr: t(5, 0, 0),
        sunrise: t(6, 0, 0),
        dhuhr: t(12, 0, 0),
        asr: t(15, 0, 0),
        maghrib: t(18, 0, 0),
        isha: t(20, 0, 0),
    }
}

#[test]
fn next_prayer_advances_strictly_after_current_time() {
    let times = sample_times();

    assert_eq!(
        next_prayer(&times, Time::from_hms(5, 0, 0).unwrap()),
        (Prayer::Sunrise, Time::from_hms(6, 0, 0).unwrap())
    );
    assert_eq!(
        next_prayer(&times, Time::from_hms(23, 59, 59).unwrap()),
        (Prayer::Fajr, Time::from_hms(5, 0, 0).unwrap())
    );
}

#[test]
fn time_until_handles_same_day_and_next_day_targets() {
    assert_eq!(
        time_until(
            Time::from_hms(10, 0, 0).unwrap(),
            Time::from_hms(9, 30, 0).unwrap()
        )
        .whole_minutes(),
        30
    );
    assert_eq!(
        time_until(
            Time::from_hms(0, 15, 0).unwrap(),
            Time::from_hms(23, 45, 0).unwrap()
        )
        .whole_minutes(),
        30
    );
    assert_eq!(
        time_until(
            Time::from_hms(5, 0, 0).unwrap(),
            Time::from_hms(5, 0, 0).unwrap()
        )
        .whole_hours(),
        24
    );
}

#[test]
fn minute_counts_wrap_around_midnight() {
    // 24h, -0.0001h, 23.9999h, 25.5h and 5.2121h rounded to whole minutes.
    assert_eq!(time_from_minutes(1440), Time::midnight());
    assert_eq!(time_from_minutes(0), Time::midnight());
    assert_eq!(time_from_minutes(1440), time_from_minutes(0));
    assert_eq!(time_from_minutes(1530), t(1, 30, 0));
    assert_eq!(time_from_minutes(313), t(5, 13, 0));
    assert_eq!(time_from_minutes(-1), t(23, 59, 0));
    assert_eq!(time_from_minutes(-1441), t(23, 59, 0));
}

#[test]
fn time_components_and_seconds() {
    let x = Time::from_hms_nano(13, 5, 9, 500).unwrap();
    assert_eq!(x.as_hms(), (13, 5, 9));
    assert_eq!(x.nanosecond(), 500);
    assert_eq!(time_to_secs(x), 13 * 3600 + 5 * 60 + 9);
    assert_eq!(Time::from_hms(24, 0, 0), None);
    assert_eq!(Time::from_hms(0, 60, 0), None);
    assert_eq!(Time::from_hms(0, 0, 60), None);
    assert_eq!(Time::from_hms_nano(0, 0, 0, 1_000_000_000), None);
}

#[test]
fn durations_round_toward_zero() {
    let d = Duration::nanoseconds(-90_500_000_000);
    assert_eq!(d.whole_seconds(), -90);
    assert_eq!(d.whole_minutes(), -1);
    assert_eq!(d.whole_hours(), 0);
    assert_eq!(Duration::hours(2).whole_minutes(), 120);
    assert_eq!(Duration::seconds(3661).whole_hours(), 1);
}

#[test]
fn format_duration_pads_and_clamps() {
    assert_eq!(format_duration(Duration::seconds(3661)), "01:01:01");
    assert_eq!(format_duration(Duration::seconds(0)), "00:00:00");
    assert_eq!(format_duration(Duration::seconds(-5)), "00:00:00");
    assert_eq!(format_duration(Duration::hours(24)), "24:00:00");
    assert_eq!(format_duration(Duration::hours(125)), "125:00:00");
}

#[test]
fn format_time_uses_twelve_hour_clock() {
    assert_eq!(format_time(t(0, 5, 0)), "12:05 AM");
    assert_eq!(format_time(t(11, 59, 59)), "11:59 AM");
    assert_eq!(format_time(t(12, 0, 0)), "12:00 PM");
    assert_eq!(format_time(t(17, 7, 0)), "5:07 PM");
}

#[test]
fn format_clock_follows_the_chosen_clock() {
    assert_eq!(format_clock(t(17, 7, 0), false), "5:07 PM");
    assert_eq!(format_clock(t(17, 7, 0), true), "17:07");
    assert_eq!(format_clock(t(0, 5, 0), true), "00:05");
    assert_eq!(format_clock(t(9, 30, 59), true), "09:30");
}

#[test]
fn time_until_lands_on_target() {
    let now = Time::from_hms_nano(22, 10, 3, 7).unwrap();
    for target in [t(5, 0, 0), t(22, 10, 3), t(23, 0, 0)] {
        let d = time_until(target, now);
        assert!(d.whole_nanoseconds() > 0);
        assert!(d.whole_nanoseconds() <= 86_400_000_000_000);
        let landed = (now.nanos_since_midnight() as i128 + d.whole_nanoseconds()) % 86_400_000_000_000;
        assert_eq!(landed as u64, target.nanos_since_midnight());
    }
}

#[test]
fn clock_reads_back_what_it_was_set_to() {
    for (h, m, s, ns) in [(0u8, 0u8, 0u8, 0u32), (23, 59, 59, 999_999_999), (12, 30, 15, 42)] {
        let x = Time::from_hms_nano(h, m, s, ns).unwrap();
        assert_eq!(x.as_hms(), (h, m, s));
        assert_eq!(x.nanosecond(), ns);
        assert!(x.nanos_since_midnight() < 86_400_000_000_000);
    }
    assert!(Time::from_hms_nano(24, 0, 0, 0).is_none());
    assert!(Time::from_hms_nano(0, 0, 0, 1_000_000_000).is_none());
}

#[test]
fn spans_hold_any_count_of_seconds() {
    let longest = Duration::seconds(i64::MAX);
    assert_eq!(longest.whole_seconds(), i64::MAX);
    assert_eq!(longest.whole_nanoseconds(), i64::MAX as i128 * 1_000_000_000);
    let shortest = Duration::seconds(i64::MIN);
    assert_eq!(shortest.whole_seconds(), i64::MIN);
    assert_eq!(shortest.whole_minutes(), i64::MIN / 60);
    assert_eq!(Duration::hours(i64::MAX / 3600).whole_hours(), i64::MAX / 3600);
}
