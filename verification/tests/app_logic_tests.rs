use athan::cli::{schedule_table, AsrArg, CliError, MethodArg};
use athan::clock::Time;
use athan::controls::{adhan_recording, escape_action, AdhanRecording, EscapeAction};
use athan::detect::{lookup_place_name, DetectError};
use athan::input::{adjustment_summary, edit_adjustment, filter_numeric, parse_adjustment_minutes};
use athan::qiblah::compass_point;
use athan::schedule::{announcement_step, latest_passed_prayer, Date};
use athan::spa::{validate_spa_inputs, SpaError, SpaFunction, SpaRealChecks};
use athan::text::parse_i32;
use athan::tray::tray_tooltip;
use athan::types::{AsrMethod, Prayer, PrayerAdjustments, PrayerTimes};

fn t(h: u8, m: u8, s: u8) -> Time {
    Time::from_hms(h, m, s).unwrap()
}

fn sample_times() -> PrayerTimes {
    PrayerTimes {
        fajr: t(5, 0, 0),
        sunrise: t(6, 0, 0),
        dhuhr: t(12, 0, 0),
        asr: t(15, 0, 0),
        maghrib: t(18, 0, 0),
        isha: t(20, 0, 0),
    }
}

#[test]
fn method_and_asr_arguments_parse() {
    assert_eq!(MethodArg::from_arg_str("mwl"), Ok(MethodArg::Mwl));
    assert_eq!(MethodArg::from_arg_str("egypt"), Ok(MethodArg::Egypt));
    assert_eq!(MethodArg::from_arg_str("karachi"), Ok(MethodArg::Karachi));
    assert_eq!(MethodArg::from_arg_str("umm-al-qura"), Ok(MethodArg::UmmAlQura));
    assert_eq!(MethodArg::from_arg_str("ummalqura"), Ok(MethodArg::UmmAlQura));
    assert_eq!(MethodArg::from_arg_str("isna"), Ok(MethodArg::Isna));
    assert_eq!(
        MethodArg::from_arg_str("MWL"),
        Err("unknown method 'MWL'. Valid values: mwl, egypt, karachi, umm-al-qura, isna".to_string())
    );
    assert_eq!(AsrArg::from_arg_str("shafi"), Ok(AsrArg::Shafi));
    assert_eq!(AsrArg::from_arg_str("hanafi"), Ok(AsrArg::Hanafi));
    assert_eq!(
        AsrArg::from_arg_str(""),
        Err("unknown asr method ''. Valid values: shafi, hanafi".to_string())
    );
    assert_eq!(AsrMethod::from(AsrArg::Hanafi), AsrMethod::Hanafi);
    assert_eq!(AsrMethod::from(AsrArg::Shafi), AsrMethod::Shafi);
}

#[test]
fn error_messages() {
    assert_eq!(
        CliError::NoPrayerTimes.message(),
        "Cannot compute prayer times for this location/date."
    );
    assert_eq!(CliError::Usage("--lat is required").message(), "--lat is required");
    assert_eq!(DetectError::Network("timeout".into()).message(), "HTTP request failed: timeout");
    assert_eq!(DetectError::Parse("bad".into()).message(), "Failed to parse response: bad");
    assert_eq!(DetectError::Api("quota".into()).message(), "API error: quota");
    assert_eq!(DetectError::Internal("Thread aborted".into()).message(), "Thread aborted");
    assert_eq!(SpaError::InvalidMonth.message(), "Month out of range (1 to 12)");
    assert_eq!(
        SpaError::InvalidAtmosRefract.message(),
        "Atmospheric refraction out of range (|atmos_refract| <= 5)"
    );
}

fn all_in_range() -> SpaRealChecks {
    SpaRealChecks {
        second_in_range: true,
        second_positive: false,
        pressure_in_range: true,
        temperature_in_range: true,
        delta_ut1_in_range: true,
        delta_t_in_range: true,
        timezone_in_range: true,
        longitude_in_range: true,
        latitude_in_range: true,
        atmos_refract_in_range: true,
        elevation_in_range: true,
        slope_in_range: true,
        azm_rotation_in_range: true,
    }
}

#[test]
fn spa_validation_reports_first_failure() {
    let ok = all_in_range();
    assert_eq!(validate_spa_inputs(2026, 5, 24, 12, 0, ok, SpaFunction::All), Ok(()));
    assert_eq!(validate_spa_inputs(6001, 13, 24, 12, 0, ok, SpaFunction::All), Err(SpaError::InvalidYear));
    assert_eq!(validate_spa_inputs(2026, 13, 32, 12, 0, ok, SpaFunction::All), Err(SpaError::InvalidMonth));
    assert_eq!(validate_spa_inputs(2026, 5, 0, 12, 0, ok, SpaFunction::All), Err(SpaError::InvalidDay));
    assert_eq!(validate_spa_inputs(2026, 5, 1, 25, 0, ok, SpaFunction::All), Err(SpaError::InvalidHour));
    assert_eq!(validate_spa_inputs(2026, 5, 1, 24, 1, ok, SpaFunction::All), Err(SpaError::InvalidMinute));
    let second = SpaRealChecks { second_positive: true, ..ok };
    assert_eq!(validate_spa_inputs(2026, 5, 1, 24, 0, second, SpaFunction::All), Err(SpaError::InvalidSecond));
    let slope = SpaRealChecks { slope_in_range: false, ..ok };
    assert_eq!(validate_spa_inputs(2026, 5, 1, 12, 0, slope, SpaFunction::All), Err(SpaError::InvalidSlope));
    assert_eq!(validate_spa_inputs(2026, 5, 1, 12, 0, slope, SpaFunction::ZaRts), Ok(()));
    let lat = SpaRealChecks { latitude_in_range: false, timezone_in_range: false, ..ok };
    assert_eq!(validate_spa_inputs(2026, 5, 1, 12, 0, lat, SpaFunction::Za), Err(SpaError::InvalidTimezone));
    assert_eq!(SpaFunction::default(), SpaFunction::All);
}

#[test]
fn numeric_filter_keeps_number_characters() {
    assert_eq!(filter_numeric("a-1.2.3b", true), "-1.23");
    assert_eq!(filter_numeric("1-2", true), "12");
    assert_eq!(filter_numeric("-1.5", false), "-15");
    assert_eq!(filter_numeric("", true), "");
    assert_eq!(filter_numeric("٣x", true), "");
}

#[test]
fn integers_parse_like_std() {
    for s in ["0", "-0", "+7", "-120", "2147483647", "-2147483648", "2147483648", "", "-", "+", "1a", "--1", "99999999999999999999"] {
        assert_eq!(parse_i32(s), s.parse::<i32>().ok(), "{s:?}");
    }
}

#[test]
fn adjustment_edits() {
    assert_eq!(parse_adjustment_minutes("120"), Some(120));
    assert_eq!(parse_adjustment_minutes("-120"), Some(-120));
    assert_eq!(parse_adjustment_minutes("121"), None);
    assert_eq!(parse_adjustment_minutes("x"), None);

    let mut adj = PrayerAdjustments::zero();
    let (kept, changed) = edit_adjustment(&mut adj, Prayer::Asr, "-1a5");
    assert_eq!((kept.as_str(), changed), ("-15", true));
    assert_eq!(adj.get(Prayer::Asr), -15);
    let (kept, changed) = edit_adjustment(&mut adj, Prayer::Asr, "500");
    assert_eq!((kept.as_str(), changed), ("500", false));
    assert_eq!(adj.get(Prayer::Asr), -15);
    let (kept, changed) = edit_adjustment(&mut adj, Prayer::Isha, "-");
    assert_eq!((kept.as_str(), changed), ("-", false));
}

#[test]
fn adjustment_summary_lists_nonzero_offsets() {
    assert_eq!(adjustment_summary(PrayerAdjustments::zero()), "");
    assert_eq!(
        adjustment_summary(PrayerAdjustments::prayer_start_safety()),
        "Dhuhr +1  Asr +1  Maghrib +1  Isha +1"
    );
    assert_eq!(adjustment_summary(PrayerAdjustments::new([-2, 0, 0, 0, 0, 0])), "Fajr -2");
}

#[test]
fn compass_points_cover_the_circle() {
    let dirs = ["N", "NNE", "NE", "ENE", "E", "ESE", "SE", "SSE",
                "S", "SSW", "SW", "WSW", "W", "WNW", "NW", "NNW"];
    for (i, dir) in dirs.iter().enumerate() {
        assert_eq!(compass_point(i), *dir);
        assert_eq!(compass_point(i + 16), *dir);
    }
}

#[test]
fn tray_tooltip_counts_down_to_next_prayer() {
    let times = sample_times();
    assert_eq!(tray_tooltip(&times, t(13, 0, 0), false), "Asr at 3:00 PM — in 2h 0m");
    assert_eq!(tray_tooltip(&times, t(17, 15, 30), false), "Maghrib at 6:00 PM — in 44m");
    assert_eq!(tray_tooltip(&times, t(21, 0, 0), false), "Fajr at 5:00 AM — in 8h 0m");
    assert_eq!(tray_tooltip(&times, t(13, 0, 0), true), "Asr at 15:00 — in 2h 0m");
}

#[test]
fn announcer_plays_each_prayer_once() {
    let times = sample_times();
    let today = Date { year: 2026, month: 5, day: 24 };
    let yesterday = Date { year: 2026, month: 5, day: 23 };

    assert_eq!(latest_passed_prayer(&times, t(4, 0, 0)), None);
    assert_eq!(latest_passed_prayer(&times, t(12, 0, 0)), Some(Prayer::Dhuhr));

    let first = announcement_step(&times, t(4, 0, 0), today, yesterday, None);
    assert_eq!(first, (Some((yesterday, Prayer::Isha)), None));

    let fajr = announcement_step(&times, t(5, 0, 1), today, yesterday, first.0);
    assert_eq!(fajr, (Some((today, Prayer::Fajr)), Some(Prayer::Fajr)));
    let again = announcement_step(&times, t(5, 0, 2), today, yesterday, fajr.0);
    assert_eq!(again, (fajr.0, None));

    let sunrise = announcement_step(&times, t(6, 30, 0), today, yesterday, again.0);
    assert_eq!(sunrise, (Some((today, Prayer::Sunrise)), None));

    let first_late = announcement_step(&times, t(16, 0, 0), today, yesterday, None);
    assert_eq!(first_late, (Some((today, Prayer::Asr)), None));
}

#[test]
fn schedule_table_marks_next_prayer() {
    let times = sample_times();
    let table = schedule_table(&times, Prayer::Asr, t(13, 0, 0), false);
    let expected = "  PRAYER           TIME   STATUS\n\
                    \x20 ---------- ----------   ------\n\
                    \x20 Fajr          5:00 AM         past\n\
                    \x20 Sunrise       6:00 AM         past\n\
                    \x20 Dhuhr        12:00 PM         past\n\
                    \x20 Asr           3:00 PM    *02:00:00\n\
                    \x20 Maghrib       6:00 PM     \n\
                    \x20 Isha          8:00 PM     \n";
    assert_eq!(table, expected);
}

#[test]
fn schedule_table_on_a_24_hour_clock() {
    let times = sample_times();
    let table = schedule_table(&times, Prayer::Fajr, t(21, 0, 0), true);
    let expected = "  PRAYER           TIME   STATUS\n\
                    \x20 ---------- ----------   ------\n\
                    \x20 Fajr            05:00    *08:00:00\n\
                    \x20 Sunrise         06:00         past\n\
                    \x20 Dhuhr           12:00         past\n\
                    \x20 Asr             15:00         past\n\
                    \x20 Maghrib         18:00         past\n\
                    \x20 Isha            20:00         past\n";
    assert_eq!(table, expected);
}

#[test]
fn location_lookup_verdict() {
    let ok = lookup_place_name(true, None, Some("Dhaka".to_string()));
    assert_eq!(ok.unwrap(), "Dhaka");
    let unnamed = lookup_place_name(true, Some("ignored".to_string()), None);
    assert_eq!(unnamed.unwrap(), "Unknown");
    match lookup_place_name(false, Some("quota exceeded".to_string()), Some("Dhaka".to_string())) {
        Err(DetectError::Api(m)) => assert_eq!(m, "quota exceeded"),
        other => panic!("unexpected {other:?}"),
    }
    match lookup_place_name(false, None, None) {
        Err(e) => assert_eq!(e.message(), "API error: Unknown error"),
        Ok(name) => panic!("unexpected {name}"),
    }
}

#[test]
fn escape_closes_the_innermost_layer() {
    assert_eq!(escape_action(true, true), EscapeAction::CloseSettings);
    assert_eq!(escape_action(true, false), EscapeAction::CloseSettings);
    assert_eq!(escape_action(false, true), EscapeAction::HideWindow);
    assert_eq!(escape_action(false, false), EscapeAction::Nothing);
}

#[test]
fn fajr_has_its_own_recording() {
    assert_eq!(adhan_recording(Some(Prayer::Fajr)), AdhanRecording::Fajr);
    assert_eq!(adhan_recording(Some(Prayer::Isha)), AdhanRecording::Regular);
    assert_eq!(adhan_recording(None), AdhanRecording::Regular);
}
