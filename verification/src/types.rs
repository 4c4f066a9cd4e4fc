use vstd::prelude::*;

use crate::clock::Time;

verus! {

/// The juristic rule for the shadow length that starts Asr.
#[derive(Debug, Clone, Copy, PartialEq, Eq, Structural, Hash)]
pub enum AsrMethod {
    Shafi,
    Hanafi,
}

/// The label shown for an Asr rule.
pub open spec fn asr_label(m: AsrMethod) -> Seq<char> {
    match m {
        AsrMethod::Shafi => "Shafi'i / Hanbali / Maliki"@,
        AsrMethod::Hanafi => "Hanafi"@,
    }
}

impl AsrMethod {
    /// The label shown for this rule.
    pub fn label(&self) -> (s: &'static str)
        ensures
            s@ == asr_label(*self),
    {
        match self {
            AsrMethod::Shafi => "Shafi'i / Hanbali / Maliki",
            AsrMethod::Hanafi => "Hanafi",
        }
    }

    /// Every rule, in the order offered to the user.
    pub fn variants() -> (v: &'static [AsrMethod])
        ensures
            v@ == seq![AsrMethod::Shafi, AsrMethod::Hanafi],
    {
        &[AsrMethod::Shafi, AsrMethod::Hanafi]
    }
}

/// One of the six daily times: the five prayers and sunrise.
#[derive(Debug, Clone, Copy, PartialEq, Eq, Structural, Hash)]
pub enum Prayer {
    Fajr,
    Sunrise,
    Dhuhr,
    Asr,
    Maghrib,
    Isha,
}

/// The position of a prayer in the day, from 0 (Fajr) to 5 (Isha).
pub open spec fn prayer_index(p: Prayer) -> int {
    match p {
        Prayer::Fajr => 0,
        Prayer::Sunrise => 1,
        Prayer::Dhuhr => 2,
        Prayer::Asr => 3,
        Prayer::Maghrib => 4,
        Prayer::Isha => 5,
    }
}

/// The six daily times in chronological order.
pub open spec fn prayer_order() -> Seq<Prayer> {
    seq![Prayer::Fajr, Prayer::Sunrise, Prayer::Dhuhr, Prayer::Asr, Prayer::Maghrib, Prayer::Isha]
}

/// The English name of a prayer.
pub open spec fn prayer_name(p: Prayer) -> Seq<char> {
    match p {
        Prayer::Fajr => "Fajr"@,
        Prayer::Sunrise => "Sunrise"@,
        Prayer::Dhuhr => "Dhuhr"@,
        Prayer::Asr => "Asr"@,
        Prayer::Maghrib => "Maghrib"@,
        Prayer::Isha => "Isha"@,
    }
}

/// The Arabic name of a prayer.
pub open spec fn prayer_arabic_name(p: Prayer) -> Seq<char> {
    match p {
        Prayer::Fajr => "الفجر"@,
        Prayer::Sunrise => "الشروق"@,
        Prayer::Dhuhr => "الظهر"@,
        Prayer::Asr => "العصر"@,
        Prayer::Maghrib => "المغرب"@,
        Prayer::Isha => "العشاء"@,
    }
}

impl Prayer {
    /// The six daily times in chronological order.
    pub const ALL: [Prayer; 6] = [
        Prayer::Fajr,
        Prayer::Sunrise,
        Prayer::Dhuhr,
        Prayer::Asr,
        Prayer::Maghrib,
        Prayer::Isha,
    ];

    /// The number of daily times.
    pub const COUNT: usize = 6;

    /// The position of this prayer in the day.
    pub fn index(self) -> (i: usize)
        ensures
            i == prayer_index(self),
            i < 6,
    {
        match self {
            Prayer::Fajr => 0,
            Prayer::Sunrise => 1,
            Prayer::Dhuhr => 2,
            Prayer::Asr => 3,
            Prayer::Maghrib => 4,
            Prayer::Isha => 5,
        }
    }

    /// The English name of this prayer.
    pub fn name(&self) -> (s: &'static str)
        ensures
            s@ == prayer_name(*self),
    {
        match self {
            Prayer::Fajr => "Fajr",
            Prayer::Sunrise => "Sunrise",
            Prayer::Dhuhr => "Dhuhr",
            Prayer::Asr => "Asr",
            Prayer::Maghrib => "Maghrib",
            Prayer::Isha => "Isha",
        }
    }

    /// The Arabic name of this prayer.
    pub fn arabic_name(&self) -> (s: &'static str)
        ensures
            s@ == prayer_arabic_name(*self),
    {
        match self {
            Prayer::Fajr => "الفجر",
            Prayer::Sunrise => "الشروق",
            Prayer::Dhuhr => "الظهر",
            Prayer::Asr => "العصر",
            Prayer::Maghrib => "المغرب",
            Prayer::Isha => "العشاء",
        }
    }

    /// The six daily times in chronological order.
    pub fn all() -> (v: &'static [Prayer])
        ensures
            v@ == prayer_order(),
    {
        &[Prayer::Fajr, Prayer::Sunrise, Prayer::Dhuhr, Prayer::Asr, Prayer::Maghrib, Prayer::Isha]
    }
}

/// The chronological listing and the index agree: the prayer listed at
/// position `i` has index `i`, and every prayer is listed at its index.
pub proof fn lemma_prayer_order_matches_index(p: Prayer, i: int)
    requires
        0 <= i < 6,
    ensures
        prayer_order().len() == 6,
        prayer_index(prayer_order()[i]) == i,
        prayer_order()[prayer_index(p)] == p,
{
}

/// A minute offset for each of the six daily times, applied after the
/// astronomical calculation.
#[derive(Debug, Clone, Copy, PartialEq, Eq, Hash)]
pub struct PrayerAdjustments {
    minutes: [i32; 6],
}

impl View for PrayerAdjustments {
    type V = Seq<i32>;

    /// The offsets in minutes, indexed by `prayer_index`.
    closed spec fn view(&self) -> Seq<i32> {
        self.minutes@
    }
}

impl PrayerAdjustments {
    /// Every adjustment table holds one offset per prayer.
    pub proof fn lemma_six_entries(a: PrayerAdjustments)
        ensures
            a@.len() == 6,
    {
    }

    /// Adjustments with the given offsets, indexed by `Prayer::index`.
    pub fn new(minutes: [i32; 6]) -> (a: PrayerAdjustments)
        ensures
            a@ == minutes@,
    {
        PrayerAdjustments { minutes }
    }

    /// No adjustment for any prayer.
    pub fn zero() -> (a: PrayerAdjustments)
        ensures
            a@ == seq![0i32, 0, 0, 0, 0, 0],
    {
        Self::new([0, 0, 0, 0, 0, 0])
    }

    /// One minute of delay for every prayer start (Dhuhr, Asr, Maghrib,
    /// Isha), none for Fajr and sunrise.
    pub fn prayer_start_safety() -> (a: PrayerAdjustments)
        ensures
            a@ == seq![0i32, 0, 1, 1, 1, 1],
    {
        Self::new([0, 0, 1, 1, 1, 1])
    }

    /// The offset in minutes for one prayer.
    pub fn get(&self, prayer: Prayer) -> (m: i32)
        ensures
            m == self@[prayer_index(prayer)],
    {
        self.minutes[prayer.index()]
    }

    /// Sets the offset in minutes for one prayer, leaving the others.
    pub fn set(&mut self, prayer: Prayer, minutes: i32)
        ensures
            final(self)@ == old(self)@.update(prayer_index(prayer), minutes),
    {
        let i = prayer.index();
        self.minutes[i] = minutes;
    }
}

/// Reading an offset back gives what was written for that prayer, and the
/// offsets of the other prayers are untouched.
pub proof fn lemma_adjustment_read_after_write(
    before: Seq<i32>,
    after: Seq<i32>,
    written: Prayer,
    minutes: i32,
    read: Prayer,
)
    requires
        before.len() == 6,
        after == before.update(prayer_index(written), minutes),
    ensures
        after.len() == 6,
        read == written ==> after[prayer_index(read)] == minutes,
        read != written ==> after[prayer_index(read)] == before[prayer_index(read)],
{
}

/// The six daily times of one day.
#[derive(Debug, Clone, Copy, PartialEq, Eq, Hash)]
pub struct PrayerTimes {
    pub fajr: Time,
    pub sunrise: Time,
    pub dhuhr: Time,
    pub asr: Time,
    pub maghrib: Time,
    pub isha: Time,
}

/// The time listed for a prayer.
pub open spec fn time_of(times: PrayerTimes, p: Prayer) -> Time {
    match p {
        Prayer::Fajr => times.fajr,
        Prayer::Sunrise => times.sunrise,
        Prayer::Dhuhr => times.dhuhr,
        Prayer::Asr => times.asr,
        Prayer::Maghrib => times.maghrib,
        Prayer::Isha => times.isha,
    }
}

impl PrayerTimes {
    /// Every prayer paired with its time, in chronological order.
    pub fn as_array(&self) -> (a: [(Prayer, Time); 6])
        ensures
            forall|i: int|
                0 <= i < 6 ==> #[trigger] a@[i] == (prayer_order()[i], time_of(*self, prayer_order()[i])),
    {
        [
            (Prayer::Fajr, self.fajr),
            (Prayer::Sunrise, self.sunrise),
            (Prayer::Dhuhr, self.dhuhr),
            (Prayer::Asr, self.asr),
            (Prayer::Maghrib, self.maghrib),
            (Prayer::Isha, self.isha),
        ]
    }
}

} // verus!
