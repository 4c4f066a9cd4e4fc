use vstd::prelude::*;

use crate::clock::Time;
use crate::format::{clamped_seconds, format_clock, format_duration, hms_text, time_text};
use crate::prayer::{time_until, wait_nanos};
use crate::text::{pad_left, pad_right, push_padded_left, push_padded_right, str_eq};
use crate::types::{prayer_name, prayer_order, time_of, Prayer, PrayerTimes};
use crate::types::AsrMethod;

verus! {

/// Why the command-line front end stops.
#[derive(Debug, Clone, Copy, PartialEq, Eq)]
pub enum CliError {
    /// The arguments were incomplete; the text says what is missing.
    Usage(&'static str),
    /// No prayer times exist for the location and date.
    NoPrayerTimes,
}

/// The message shown for a command-line error.
pub open spec fn cli_error_text(e: CliError) -> Seq<char> {
    match e {
        CliError::Usage(text) => text@,
        CliError::NoPrayerTimes => "Cannot compute prayer times for this location/date."@,
    }
}

impl CliError {
    /// The message shown for this error.
    pub fn message(&self) -> (s: String)
        ensures
            s@ == cli_error_text(*self),
    {
        match self {
            CliError::Usage(text) => String::from_str(text),
            CliError::NoPrayerTimes => String::from_str(
                "Cannot compute prayer times for this location/date.",
            ),
        }
    }
}

/// A calculation method named on the command line.
#[derive(Debug, Clone, Copy, PartialEq, Eq, Structural)]
pub enum MethodArg {
    Mwl,
    Egypt,
    Karachi,
    UmmAlQura,
    Isna,
}

/// The method named by a command-line value, if any.
pub open spec fn method_arg_named(s: Seq<char>) -> Option<MethodArg> {
    if s == "mwl"@ {
        Some(MethodArg::Mwl)
    } else if s == "egypt"@ {
        Some(MethodArg::Egypt)
    } else if s == "karachi"@ {
        Some(MethodArg::Karachi)
    } else if s == "umm-al-qura"@ || s == "ummalqura"@ {
        Some(MethodArg::UmmAlQura)
    } else if s == "isna"@ {
        Some(MethodArg::Isna)
    } else {
        None
    }
}

/// The complaint about an unknown method value.
pub open spec fn unknown_method_text(s: Seq<char>) -> Seq<char> {
    "unknown method '"@ + s + "'. Valid values: mwl, egypt, karachi, umm-al-qura, isna"@
}

impl MethodArg {
    /// Reads a method from its command-line spelling.
    pub fn from_arg_str(value: &str) -> (r: Result<MethodArg, String>)
        ensures
            method_arg_named(value@) matches Some(m) ==> r == Ok::<MethodArg, String>(m),
            method_arg_named(value@) is None ==> (r matches Err(e) && e@ == unknown_method_text(
                value@,
            )),
    {
        if str_eq(value, "mwl") {
            Ok(MethodArg::Mwl)
        } else if str_eq(value, "egypt") {
            Ok(MethodArg::Egypt)
        } else if str_eq(value, "karachi") {
            Ok(MethodArg::Karachi)
        } else if str_eq(value, "umm-al-qura") || str_eq(value, "ummalqura") {
            Ok(MethodArg::UmmAlQura)
        } else if str_eq(value, "isna") {
            Ok(MethodArg::Isna)
        } else {
            let mut msg = String::from_str("unknown method '");
            msg.append(value);
            msg.append("'. Valid values: mwl, egypt, karachi, umm-al-qura, isna");
            Err(msg)
        }
    }
}

/// An Asr rule named on the command line.
#[derive(Debug, Clone, Copy, PartialEq, Eq, Structural)]
pub enum AsrArg {
    Shafi,
    Hanafi,
}

/// The Asr rule named by a command-line value, if any.
pub open spec fn asr_arg_named(s: Seq<char>) -> Option<AsrArg> {
    if s == "shafi"@ {
        Some(AsrArg::Shafi)
    } else if s == "hanafi"@ {
        Some(AsrArg::Hanafi)
    } else {
        None
    }
}

/// The complaint about an unknown Asr value.
pub open spec fn unknown_asr_text(s: Seq<char>) -> Seq<char> {
    "unknown asr method '"@ + s + "'. Valid values: shafi, hanafi"@
}

impl AsrArg {
    /// Reads an Asr rule from its command-line spelling.
    pub fn from_arg_str(value: &str) -> (r: Result<AsrArg, String>)
        ensures
            asr_arg_named(value@) matches Some(a) ==> r == Ok::<AsrArg, String>(a),
            asr_arg_named(value@) is None ==> (r matches Err(e) && e@ == unknown_asr_text(value@)),
    {
        if str_eq(value, "shafi") {
            Ok(AsrArg::Shafi)
        } else if str_eq(value, "hanafi") {
            Ok(AsrArg::Hanafi)
        } else {
            let mut msg = String::from_str("unknown asr method '");
            msg.append(value);
            msg.append("'. Valid values: shafi, hanafi");
            Err(msg)
        }
    }
}

/// The Asr rule a command-line value selects.
pub open spec fn asr_method_of_arg(a: AsrArg) -> AsrMethod {
    match a {
        AsrArg::Shafi => AsrMethod::Shafi,
        AsrArg::Hanafi => AsrMethod::Hanafi,
    }
}

impl From<AsrArg> for AsrMethod {
    fn from(a: AsrArg) -> (m: AsrMethod) {
        match a {
            AsrArg::Shafi => AsrMethod::Shafi,
            AsrArg::Hanafi => AsrMethod::Hanafi,
        }
    }
}

impl vstd::std_specs::convert::FromSpecImpl<AsrArg> for AsrMethod {
    open spec fn obeys_from_spec() -> bool {
        true
    }

    open spec fn from_spec(a: AsrArg) -> AsrMethod {
        asr_method_of_arg(a)
    }
}

} // verus!

verus! {

/// The first two lines of the schedule table: the column titles and their
/// underlines.
pub open spec fn schedule_header() -> Seq<char> {
    "  "@ + pad_right("PRAYER"@, 10) + " "@ + pad_left("TIME"@, 10) + "   STATUS\n"@ + "  "@
        + pad_right("----------"@, 10) + " "@ + pad_left("----------"@, 10) + "   ------\n"@
}

/// The status column of a row: the countdown for the next prayer, `past`
/// for a time already gone today, blank otherwise.
pub open spec fn row_status(p: Prayer, t: Time, next: Prayer, now: Time) -> Seq<char> {
    if p == next {
        pad_left(hms_text(clamped_seconds(wait_nanos(t@, now@))), 8)
    } else if t@ < now@ {
        "    past"@
    } else {
        Seq::empty()
    }
}

/// One row of the schedule table, with the next prayer starred.
pub open spec fn schedule_row(p: Prayer, t: Time, next: Prayer, now: Time, use_24h: bool) -> Seq<
    char,
> {
    "  "@ + pad_right(prayer_name(p), 10) + " "@ + pad_left(time_text(t@, use_24h), 10) + "   "@ + (if p == next {
        " *"@
    } else {
        "  "@
    }) + row_status(p, t, next, now) + "\n"@
}

/// The rows of the first `n` daily times.
pub open spec fn schedule_rows(
    times: PrayerTimes,
    next: Prayer,
    now: Time,
    use_24h: bool,
    n: int,
) -> Seq<char>
    decreases n,
{
    if n <= 0 {
        Seq::empty()
    } else {
        schedule_rows(times, next, now, use_24h, n - 1) + schedule_row(
            prayer_order()[n - 1],
            time_of(times, prayer_order()[n - 1]),
            next,
            now,
            use_24h,
        )
    }
}

/// One row of the schedule table.
fn schedule_row_text(prayer: Prayer, time: Time, next: Prayer, now: Time, use_24h: bool) -> (s:
    String)
    ensures
        s@ == schedule_row(prayer, time, next, now, use_24h),
{
    proof {
        reveal_strlit("  ");
        reveal_strlit(" ");
    }
    let is_next = prayer == next;
    let status = if is_next {
        let mut countdown = String::new();
        let text = format_duration(time_until(time, now));
        push_padded_left(&mut countdown, text.as_str(), 8);
        countdown
    } else if time.nanos_since_midnight() < now.nanos_since_midnight() {
        String::from_str("    past")
    } else {
        String::new()
    };
    let marker = if is_next {
        " *"
    } else {
        "  "
    };
    let mut out = String::from_str("  ");
    push_padded_right(&mut out, prayer.name(), 10);
    out.append(" ");
    let clock = format_clock(time, use_24h);
    push_padded_left(&mut out, clock.as_str(), 10);
    out.append("   ");
    out.append(marker);
    out.append(status.as_str());
    out.append("\n");
    proof {
        assert(out@ =~= schedule_row(prayer, time, next, now, use_24h));
    }
    out
}

/// The schedule table printed by the command-line front end: titles, then
/// one row per daily time, the `next` prayer marked with its countdown from
/// the local time `now`, times shown on a 24-hour clock when `use_24h`.
pub fn schedule_table(times: &PrayerTimes, next: Prayer, now: Time, use_24h: bool) -> (s: String)
    ensures
        s@ == schedule_header() + schedule_rows(*times, next, now, use_24h, 6),
{
    let mut out = String::new();
    proof {
        reveal_strlit("  ");
        reveal_strlit(" ");
    }
    out.append("  ");
    push_padded_right(&mut out, "PRAYER", 10);
    out.append(" ");
    push_padded_left(&mut out, "TIME", 10);
    out.append("   STATUS\n");
    out.append("  ");
    push_padded_right(&mut out, "----------", 10);
    out.append(" ");
    push_padded_left(&mut out, "----------", 10);
    out.append("   ------\n");
    proof {
        assert(out@ =~= schedule_header() + schedule_rows(*times, next, now, use_24h, 0));
    }
    let list = times.as_array();
    let now_n = now.nanos_since_midnight();
    let mut i: usize = 0;
    while i < 6
        invariant
            0 <= i <= 6,
            forall|k: int|
                0 <= k < 6 ==> #[trigger] list@[k] == (
                    prayer_order()[k],
                    time_of(*times, prayer_order()[k]),
                ),
            now_n == now@,
            out@ == schedule_header() + schedule_rows(*times, next, now, use_24h, i as int),
        decreases 6 - i,
    {
        let (prayer, time) = list[i];
        let row = schedule_row_text(prayer, time, next, now, use_24h);
        out.append(row.as_str());
        proof {
            assert(out@ =~= schedule_header() + schedule_rows(*times, next, now, use_24h, i + 1));
        }
        i = i + 1;
    }
    out
}

} // verus!
