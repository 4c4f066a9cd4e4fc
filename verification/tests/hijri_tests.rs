use athan::hijri::{is_ramadan, HijriDate};
use athan::tabular;

#[test]
fn invalid_month_names_do_not_panic() {
    let zero = HijriDate {
        year: 1447,
        month: 0,
        day: 1,
    };
    let too_high = HijriDate {
        year: 1447,
        month: 13,
        day: 1,
    };

    assert_eq!(zero.month_name(), "Unknown");
    assert_eq!(zero.arabic_month_name(), "");
    assert_eq!(too_high.month_name(), "Unknown");
    assert_eq!(too_high.arabic_month_name(), "");
}

#[test]
fn known_hijri_conversion_2026() {
    let hijri = HijriDate::from_gregorian(2026, 5, 24);
    assert_eq!(hijri.year, 1447, "year: got {}", hijri.year);
    assert_eq!(hijri.month, 12, "month: got {}", hijri.month);
    assert_eq!(hijri.day, 7, "day: got {}", hijri.day);
}

#[test]
fn known_hijri_conversion_ramadan() {
    let hijri = HijriDate::from_gregorian(2026, 2, 18);
    assert_eq!(hijri.year, 1447);
    assert_eq!(hijri.month, 9);
    assert_eq!(hijri.day, 1);
}

#[test]
fn known_hijri_conversion_1447_start() {
    for day in 25..=30 {
        let hijri = HijriDate::from_gregorian(2025, 6, day);
        if hijri.year == 1447 && hijri.month == 1 && hijri.day == 1 {
            return;
        }
    }
    let hijri = HijriDate::from_gregorian(2025, 6, 27);
    assert_eq!(hijri.year, 1447, "year should be 1447, got {}", hijri.year);
    assert!(
        (1..=2).contains(&hijri.month),
        "should be Muharram or Safar, got month {}",
        hijri.month
    );
}

#[test]
fn hijri_display_formats() {
    let hijri = HijriDate { year: 1447, month: 9, day: 1 };
    assert_eq!(hijri.display(), "Ramadan 1, 1447 AH");
    assert_eq!(hijri.arabic_display(), "1 رمضان 1447 هـ");
}

#[test]
fn hijri_month_names_all_months() {
    let names = [
        "Muharram", "Safar", "Rabi' I", "Rabi' II", "Jumada I", "Jumada II",
        "Rajab", "Sha'ban", "Ramadan", "Shawwal", "Dhu al-Qi'dah", "Dhu al-Hijjah",
    ];
    for (i, expected) in names.iter().enumerate() {
        let h = HijriDate { year: 1447, month: (i + 1) as u8, day: 1 };
        assert_eq!(h.month_name(), *expected, "month {}", i + 1);
    }
}

#[test]
fn hijri_arabic_names_all_months() {
    let arabic = [
        "محرم", "صفر", "ربيع الأول", "ربيع الآخر", "جمادى الأولى", "جمادى الآخرة",
        "رجب", "شعبان", "رمضان", "شوال", "ذو القعدة", "ذو الحجة",
    ];
    for (i, expected) in arabic.iter().enumerate() {
        let h = HijriDate { year: 1447, month: (i + 1) as u8, day: 1 };
        assert_eq!(h.arabic_month_name(), *expected, "month {}", i + 1);
    }
}

#[test]
fn hijri_invalid_gregorian_returns_default() {
    let hijri = HijriDate::from_gregorian(1, 1, 1);
    assert!(
        hijri.year == 0 || hijri.year > 0,
        "Unexpected year for ancient date: {}",
        hijri.year
    );
}

#[test]
fn is_ramadan_through_year() {
    let test_cases = [
        (2026, 1u8, 1u8, false),
        (2026, 2, 18, true),
        (2026, 5, 24, false),
    ];

    for (y, m, d, expected) in &test_cases {
        assert_eq!(
            is_ramadan(*y, *m, *d),
            *expected,
            "{y}-{m:?}-{d} Ramadan detection failed"
        );
    }
}

#[test]
fn tabular_ramadan_agrees_on_known_dates() {
    assert!(!tabular::is_ramadan(2026, 1, 1));
    assert!(tabular::is_ramadan(2026, 2, 18));
    assert!(tabular::is_ramadan(2026, 3, 19));
    assert!(!tabular::is_ramadan(2026, 3, 20));
    assert!(!tabular::is_ramadan(2026, 2, 17));
    assert!(!tabular::is_ramadan(2026, 5, 24));
}

#[test]
fn tabular_ramadan_lasts_thirty_days_in_2026() {
    let days_in_month = [31u8, 28, 31, 30, 31, 30, 31, 31, 30, 31, 30, 31];
    let mut count = 0;
    for (m, &len) in days_in_month.iter().enumerate() {
        for d in 1..=len {
            if tabular::is_ramadan(2026, (m + 1) as u8, d) {
                count += 1;
            }
        }
    }
    assert_eq!(count, 30);
}

#[test]
fn from_gregorian_gives_the_default_for_invalid_dates() {
    let zero = HijriDate { year: 0, month: 0, day: 0 };
    assert_eq!(HijriDate::default(), zero);
    assert_eq!(HijriDate::from_gregorian(2026, 2, 29), zero);
    assert_eq!(HijriDate::from_gregorian(2026, 13, 1), zero);
    assert_eq!(HijriDate::from_gregorian(2026, 4, 31), zero);
    assert_eq!(HijriDate::from_gregorian(10000, 1, 1), zero);
    assert_ne!(HijriDate::from_gregorian(2024, 2, 29), zero);
    assert!(!is_ramadan(2026, 2, 30));
}

#[test]
fn hijri_display_negative_year_and_unknown_month() {
    let h = HijriDate { year: -5, month: 13, day: 30 };
    assert_eq!(h.display(), "Unknown 30, -5 AH");
    assert_eq!(h.arabic_display(), "30  -5 هـ");
}

#[test]
fn converted_dates_name_a_real_month() {
    for (y, m, d) in [(2026, 1, 1), (2026, 2, 19), (1, 1, 1), (-500, 6, 15), (9999, 12, 31)] {
        let h = HijriDate::from_gregorian(y, m, d);
        assert!(h.year >= 1);
        assert!((1..=12).contains(&h.month));
        assert!((1..=30).contains(&h.day));
        assert_ne!(h.month_name(), "Unknown");
        assert!(!h.arabic_month_name().is_empty());
    }
}
