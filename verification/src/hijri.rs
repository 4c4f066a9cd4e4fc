use vstd::prelude::*;

use crate::text::{push_decimal, push_signed_decimal, decimal, signed_decimal};

verus! {

/// A date of the Islamic (Hijri) calendar.
#[derive(Debug, Clone, Copy, PartialEq, Eq, Structural, Hash)]
pub struct HijriDate {
    pub year: i32,
    pub month: u8,
    pub day: u8,
}

/// The English name of Hijri month `m`, or `Unknown` outside `1..=12`.
pub open spec fn islamic_month_name(m: int) -> Seq<char> {
    if m == 1 {
        "Muharram"@
    } else if m == 2 {
        "Safar"@
    } else if m == 3 {
        "Rabi' I"@
    } else if m == 4 {
        "Rabi' II"@
    } else if m == 5 {
        "Jumada I"@
    } else if m == 6 {
        "Jumada II"@
    } else if m == 7 {
        "Rajab"@
    } else if m == 8 {
        "Sha'ban"@
    } else if m == 9 {
        "Ramadan"@
    } else if m == 10 {
        "Shawwal"@
    } else if m == 11 {
        "Dhu al-Qi'dah"@
    } else if m == 12 {
        "Dhu al-Hijjah"@
    } else {
        "Unknown"@
    }
}

/// The Arabic name of Hijri month `m`, or the empty text outside `1..=12`.
pub open spec fn arabic_month_name_of(m: int) -> Seq<char> {
    if m == 1 {
        "محرم"@
    } else if m == 2 {
        "صفر"@
    } else if m == 3 {
        "ربيع الأول"@
    } else if m == 4 {
        "ربيع الآخر"@
    } else if m == 5 {
        "جمادى الأولى"@
    } else if m == 6 {
        "جمادى الآخرة"@
    } else if m == 7 {
        "رجب"@
    } else if m == 8 {
        "شعبان"@
    } else if m == 9 {
        "رمضان"@
    } else if m == 10 {
        "شوال"@
    } else if m == 11 {
        "ذو القعدة"@
    } else if m == 12 {
        "ذو الحجة"@
    } else {
        ""@
    }
}

/// Every one of the 12 months has a name of its own in both languages: no
/// month of a Hijri date reads `Unknown`, and none has an empty Arabic name.
pub proof fn lemma_every_month_is_named(m: int)
    requires
        1 <= m <= 12,
    ensures
        islamic_month_name(m) != "Unknown"@,
        arabic_month_name_of(m).len() > 0,
{
    reveal_strlit("Unknown");
    reveal_strlit("Muharram");
    reveal_strlit("Safar");
    reveal_strlit("Rabi' I");
    reveal_strlit("Rabi' II");
    reveal_strlit("Jumada I");
    reveal_strlit("Jumada II");
    reveal_strlit("Rajab");
    reveal_strlit("Sha'ban");
    reveal_strlit("Ramadan");
    reveal_strlit("Shawwal");
    reveal_strlit("Dhu al-Qi'dah");
    reveal_strlit("Dhu al-Hijjah");
    reveal_strlit("محرم");
    reveal_strlit("صفر");
    reveal_strlit("ربيع الأول");
    reveal_strlit("ربيع الآخر");
    reveal_strlit("جمادى الأولى");
    reveal_strlit("جمادى الآخرة");
    reveal_strlit("رجب");
    reveal_strlit("شعبان");
    reveal_strlit("رمضان");
    reveal_strlit("شوال");
    reveal_strlit("ذو القعدة");
    reveal_strlit("ذو الحجة");
    assert(islamic_month_name(m)[0] != "Unknown"@[0]);
}

/// The English rendering: `Ramadan 1, 1447 AH`.
pub open spec fn english_date_text(d: HijriDate) -> Seq<char> {
    islamic_month_name(d.month as int) + seq![' '] + decimal(d.day as nat) + seq![',', ' ']
        + signed_decimal(d.year as int) + " AH"@
}

/// The Arabic rendering: `1 رمضان 1447 هـ`.
pub open spec fn arabic_date_text(d: HijriDate) -> Seq<char> {
    decimal(d.day as nat) + seq![' '] + arabic_month_name_of(d.month as int) + seq![' ']
        + signed_decimal(d.year as int) + " هـ"@
}

/// Whether `year`-`month`-`day` is a date of the proleptic Gregorian
/// calendar between the years -9999 and 9999.
pub open spec fn valid_iso_date(year: int, month: int, day: int) -> bool {
    &&& -9999 <= year <= 9999
    &&& 1 <= month <= 12
    &&& 1 <= day <= days_in_gregorian_month(year, month)
}

/// Whether `year` is a Gregorian leap year.
pub open spec fn is_gregorian_leap_year(year: int) -> bool {
    year % 4 == 0 && (year % 100 != 0 || year % 400 == 0)
}

/// The number of days of a month of the Gregorian calendar.
pub open spec fn days_in_gregorian_month(year: int, month: int) -> int {
    if month == 2 {
        if is_gregorian_leap_year(year) {
            29
        } else {
            28
        }
    } else if month == 4 || month == 6 || month == 9 || month == 11 {
        30
    } else {
        31
    }
}

/// The Umm al-Qura date (year, month, day) of a proleptic Gregorian date,
/// as the `icu_calendar` crate computes it; `None` for an invalid date.
pub uninterp spec fn umm_al_qura_of(year: i32, month: u8, day: u8) -> Option<(i32, u8, u8)>;

/// Converts a Gregorian date with `icu_calendar`: `Date::try_new_iso`, then
/// `Date::to_calendar(Hijri::new_umm_al_qura())`, read back through
/// `era_year().year`, `month().ordinal` and `day_of_month()`.
/// Claimed: the result is the named conversion of the arguments; it is
/// present exactly when `try_new_iso` accepts the date, which by the crate's
/// source is when the year lies in -9999..=9999 and month and day form a
/// Gregorian date; and, as the crate documents, the Hijri month is one of
/// the 12 and the day is within a month of 29 or 30 days, while the era
/// year (counted in the AH or BH era) is at least 1. Which Hijri date
/// comes out is not described.
#[verifier::external_body]
fn umm_al_qura_from_iso(year: i32, month: u8, day: u8) -> (r: Option<(i32, u8, u8)>)
    ensures
        r == umm_al_qura_of(year, month, day),
        r is Some <==> valid_iso_date(year as int, month as int, day as int),
        r matches Some(t) ==> hijri_fields_in_range(t.0 as int, t.1 as int, t.2 as int),
{
    let iso = icu_calendar::Date::try_new_iso(year, month, day).ok()?;
    let hijri = iso.to_calendar(icu_calendar::cal::Hijri::new_umm_al_qura());
    Some((hijri.era_year().year, hijri.month().ordinal, hijri.day_of_month().0))
}

/// Whether era year, month and day are those of some Hijri date: a year of
/// at least 1, one of the 12 months, a day within a month of at most 30.
pub open spec fn hijri_fields_in_range(year: int, month: int, day: int) -> bool {
    &&& year >= 1
    &&& 1 <= month <= 12
    &&& 1 <= day <= 30
}

/// The date with every field zero.
pub open spec fn zero_hijri_date() -> HijriDate {
    HijriDate { year: 0, month: 0, day: 0 }
}

impl Default for HijriDate {
    /// The date with every field zero.
    fn default() -> (d: HijriDate)
        ensures
            d == zero_hijri_date(),
    {
        HijriDate { year: 0, month: 0, day: 0 }
    }
}

/// The Hijri date named for a Gregorian date.
pub open spec fn hijri_of(year: i32, month: u8, day: u8) -> Option<HijriDate> {
    match umm_al_qura_of(year, month, day) {
        Some(t) => Some(HijriDate { year: t.0, month: t.1, day: t.2 }),
        None => None,
    }
}

impl HijriDate {
    /// The English name of this date's month, `Unknown` when out of range.
    pub fn month_name(&self) -> (s: &'static str)
        ensures
            s@ == islamic_month_name(self.month as int),
    {
        match self.month {
            1 => "Muharram",
            2 => "Safar",
            3 => "Rabi' I",
            4 => "Rabi' II",
            5 => "Jumada I",
            6 => "Jumada II",
            7 => "Rajab",
            8 => "Sha'ban",
            9 => "Ramadan",
            10 => "Shawwal",
            11 => "Dhu al-Qi'dah",
            12 => "Dhu al-Hijjah",
            _ => "Unknown",
        }
    }

    /// The Arabic name of this date's month, empty when out of range.
    pub fn arabic_month_name(&self) -> (s: &'static str)
        ensures
            s@ == arabic_month_name_of(self.month as int),
    {
        match self.month {
            1 => "محرم",
            2 => "صفر",
            3 => "ربيع الأول",
            4 => "ربيع الآخر",
            5 => "جمادى الأولى",
            6 => "جمادى الآخرة",
            7 => "رجب",
            8 => "شعبان",
            9 => "رمضان",
            10 => "شوال",
            11 => "ذو القعدة",
            12 => "ذو الحجة",
            _ => "",
        }
    }

    /// The Umm al-Qura date of a Gregorian date. A Gregorian date that is
    /// invalid or outside the years -9999..=9999 gives the default date,
    /// with every field zero.
    pub fn from_gregorian(year: i32, month: u8, day: u8) -> (r: HijriDate)
        ensures
            valid_iso_date(year as int, month as int, day as int) ==> Some(r) == hijri_of(
                year,
                month,
                day,
            ),
            valid_iso_date(year as int, month as int, day as int) ==> hijri_fields_in_range(
                r.year as int,
                r.month as int,
                r.day as int,
            ),
            !valid_iso_date(year as int, month as int, day as int) ==> r == zero_hijri_date()
                && hijri_of(year, month, day) is None,
    {
        match umm_al_qura_from_iso(year, month, day) {
            Some((y, m, d)) => HijriDate { year: y, month: m, day: d },
            None => HijriDate::default(),
        }
    }

    /// The date in English, such as `Ramadan 1, 1447 AH`.
    pub fn display(&self) -> (s: String)
        ensures
            s@ == english_date_text(*self),
    {
        let mut out = String::new();
        out.append(self.month_name());
        proof {
            reveal_strlit(" ");
            reveal_strlit(", ");
        }
        out.append(" ");
        push_decimal(&mut out, self.day as u64);
        out.append(", ");
        push_signed_decimal(&mut out, self.year as i64);
        out.append(" AH");
        proof {
            assert(out@ =~= english_date_text(*self));
        }
        out
    }

    /// The date in Arabic, such as `1 رمضان 1447 هـ`.
    pub fn arabic_display(&self) -> (s: String)
        ensures
            s@ == arabic_date_text(*self),
    {
        let mut out = String::new();
        push_decimal(&mut out, self.day as u64);
        proof {
            reveal_strlit(" ");
        }
        out.append(" ");
        out.append(self.arabic_month_name());
        out.append(" ");
        push_signed_decimal(&mut out, self.year as i64);
        out.append(" هـ");
        proof {
            assert(out@ =~= arabic_date_text(*self));
        }
        out
    }
}

/// Whether a Gregorian date falls in Ramadan, the ninth Hijri month, by the
/// Umm al-Qura calendar; `false` for an invalid date.
pub fn is_ramadan(year: i32, month: u8, day: u8) -> (r: bool)
    ensures
        r == (hijri_of(year, month, day) matches Some(h) && h.month == 9),
{
    HijriDate::from_gregorian(year, month, day).month == 9
}

} // verus!
