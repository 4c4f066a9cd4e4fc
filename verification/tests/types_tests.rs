use athan::types::{AsrMethod, Prayer, PrayerAdjustments};

#[test]
fn prayer_order_is_chronological_for_display() {
    let names: Vec<_> = Prayer::all().iter().map(Prayer::name).collect();
    assert_eq!(names, ["Fajr", "Sunrise", "Dhuhr", "Asr", "Maghrib", "Isha"]);
}

#[test]
fn prayer_adjustments_can_read_and_write_each_prayer() {
    let mut adjustments = PrayerAdjustments::zero();

    for (index, prayer) in Prayer::all().iter().copied().enumerate() {
        adjustments.set(prayer, index as i32 - 2);
    }

    assert_eq!(adjustments.get(Prayer::Fajr), -2);
    assert_eq!(adjustments.get(Prayer::Sunrise), -1);
    assert_eq!(adjustments.get(Prayer::Dhuhr), 0);
    assert_eq!(adjustments.get(Prayer::Asr), 1);
    assert_eq!(adjustments.get(Prayer::Maghrib), 2);
    assert_eq!(adjustments.get(Prayer::Isha), 3);
}

#[test]
fn prayer_start_safety_delays_only_prayer_start_times() {
    let adjustments = PrayerAdjustments::prayer_start_safety();

    assert_eq!(Prayer::ALL.map(|prayer| adjustments.get(prayer)), [0, 0, 1, 1, 1, 1]);
}

#[test]
fn prayer_index_matches_listing_position() {
    for (i, p) in Prayer::ALL.iter().enumerate() {
        assert_eq!(p.index(), i);
        assert_eq!(Prayer::all()[p.index()], *p);
    }
    assert_eq!(Prayer::COUNT, 6);
}

#[test]
fn prayer_arabic_names() {
    let names: Vec<_> = Prayer::all().iter().map(Prayer::arabic_name).collect();
    assert_eq!(names, ["الفجر", "الشروق", "الظهر", "العصر", "المغرب", "العشاء"]);
}

#[test]
fn setting_one_adjustment_keeps_the_others() {
    let mut a = PrayerAdjustments::new([5, 6, 7, 8, 9, 10]);
    a.set(Prayer::Asr, -30);
    assert_eq!(Prayer::ALL.map(|p| a.get(p)), [5, 6, 7, -30, 9, 10]);
}

#[test]
fn asr_labels_and_variants() {
    assert_eq!(AsrMethod::variants(), &[AsrMethod::Shafi, AsrMethod::Hanafi]);
    assert_eq!(AsrMethod::Shafi.label(), "Shafi'i / Hanbali / Maliki");
    assert_eq!(AsrMethod::Hanafi.label(), "Hanafi");
}
