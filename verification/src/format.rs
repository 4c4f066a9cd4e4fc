use vstd::prelude::*;

use crate::clock::{Duration, Time, NANOS_PER_HOUR, NANOS_PER_MINUTE, NANOS_PER_SECOND};
use crate::text::{
    all_digits, decimal, digits_value, lemma_two_digits_reads_back, push_decimal, push_two_digits,
    two_digits,
};

verus! {

/// A count of seconds written as `HH:MM:SS` (hours may take more digits).
pub open spec fn hms_text(secs: nat) -> Seq<char> {
    two_digits(secs / 3600) + seq![':'] + two_digits((secs % 3600) / 60) + seq![':'] + two_digits(
        secs % 60,
    )
}

/// Reading an `H:MM:SS` text back gives the seconds it was made from: it
/// ends in two two-digit fields after colons, every field holds digits
/// only, minutes and seconds are below 60, and hours, minutes and seconds
/// add up to `secs`.
pub proof fn lemma_hms_text_reads_back(secs: nat)
    ensures
        ({
            let t = hms_text(secs);
            let n = t.len() as int;
            let hours = t.subrange(0, n - 6);
            let minutes = t.subrange(n - 5, n - 3);
            let seconds = t.subrange(n - 2, n);
            &&& n >= 8
            &&& t[n - 6] == ':'
            &&& t[n - 3] == ':'
            &&& all_digits(hours) && all_digits(minutes) && all_digits(seconds)
            &&& digits_value(minutes) < 60
            &&& digits_value(seconds) < 60
            &&& 3600 * digits_value(hours) + 60 * digits_value(minutes) + digits_value(seconds)
                == secs
        }),
{
    let h = secs / 3600;
    let m = (secs % 3600) / 60;
    let sec = secs % 60;
    lemma_two_digits_reads_back(h);
    lemma_two_digits_reads_back(m);
    lemma_two_digits_reads_back(sec);
    let t = hms_text(secs);
    let hp = two_digits(h);
    let n = t.len() as int;
    assert(n == hp.len() + 6);
    assert(t.subrange(0, n - 6) =~= hp);
    assert(t.subrange(n - 5, n - 3) =~= two_digits(m));
    assert(t.subrange(n - 2, n) =~= two_digits(sec));
    assert(t[n - 6] == ':');
    assert(t[n - 3] == ':');
    assert(3600 * h + 60 * m + sec == secs) by (nonlinear_arith)
        requires
            h == secs / 3600,
            m == (secs % 3600) / 60,
            sec == secs % 60,
    {
        assert(secs == 3600 * (secs / 3600) + secs % 3600);
        assert(secs % 3600 == 60 * ((secs % 3600) / 60) + (secs % 3600) % 60);
        assert((secs % 3600) % 60 == secs % 60);
    }
}

/// The whole seconds of a span, with negative spans counted as zero.
pub open spec fn clamped_seconds(nanos: int) -> nat {
    if nanos < 0 {
        0
    } else {
        (nanos / (NANOS_PER_SECOND as int)) as nat
    }
}

/// A span written as `HH:MM:SS`; negative spans read `00:00:00`.
pub fn format_duration(d: Duration) -> (s: String)
    ensures
        s@ == hms_text(clamped_seconds(d@)),
{
    let whole = d.whole_seconds();
    let secs: u64 = if whole < 0 {
        0
    } else {
        whole as u64
    };
    let mut out = String::new();
    push_two_digits(&mut out, secs / 3600);
    proof {
        reveal_strlit(":");
    }
    out.append(":");
    push_two_digits(&mut out, (secs % 3600) / 60);
    out.append(":");
    push_two_digits(&mut out, secs % 60);
    proof {
        assert(out@ =~= hms_text(clamped_seconds(d@)));
    }
    out
}

/// The hour as read on a 12-hour clock: midnight and noon are 12.
pub open spec fn hour_12(h: int) -> int {
    if h == 0 {
        12
    } else if h > 12 {
        h - 12
    } else {
        h
    }
}

/// `AM` before noon, `PM` from noon on.
pub open spec fn meridiem(h: int) -> Seq<char> {
    if h < 12 {
        "AM"@
    } else {
        "PM"@
    }
}

/// A time of day on a 12-hour clock, such as `5:07 PM`.
pub open spec fn clock_text(h: nat, m: nat) -> Seq<char> {
    decimal(hour_12(h as int) as nat) + seq![':'] + two_digits(m) + seq![' '] + meridiem(h as int)
}

/// A time of day written on a 12-hour clock, such as `5:07 PM`.
pub fn format_time(t: Time) -> (s: String)
    ensures
        s@ == clock_text(t@ / (NANOS_PER_HOUR as nat), (t@ / (NANOS_PER_MINUTE as nat)) % 60),
{
    let (h, m, _) = t.as_hms();
    let ampm = if h < 12 {
        "AM"
    } else {
        "PM"
    };
    let h12 = if h == 0 {
        12
    } else if h > 12 {
        h - 12
    } else {
        h
    };
    let mut out = String::new();
    push_decimal(&mut out, h12 as u64);
    proof {
        reveal_strlit(":");
        reveal_strlit(" ");
    }
    out.append(":");
    push_two_digits(&mut out, m as u64);
    out.append(" ");
    out.append(ampm);
    proof {
        assert(out@ =~= clock_text(t@ / (NANOS_PER_HOUR as nat), (t@ / (NANOS_PER_MINUTE as nat)) % 60));
    }
    out
}

/// A time of day on a 24-hour clock, such as `17:07`.
pub open spec fn clock_text_24(h: nat, m: nat) -> Seq<char> {
    two_digits(h) + seq![':'] + two_digits(m)
}

/// The time of day `t` (nanoseconds since midnight) as shown with the
/// chosen clock: 24-hour when `use_24h`, 12-hour otherwise.
pub open spec fn time_text(t: nat, use_24h: bool) -> Seq<char> {
    let h = t / (NANOS_PER_HOUR as nat);
    let m = (t / (NANOS_PER_MINUTE as nat)) % 60;
    if use_24h {
        clock_text_24(h, m)
    } else {
        clock_text(h, m)
    }
}

/// A time of day written on the chosen clock: `17:07` on a 24-hour clock,
/// `5:07 PM` on a 12-hour one.
pub fn format_clock(t: Time, use_24h: bool) -> (s: String)
    ensures
        s@ == time_text(t@, use_24h),
{
    if use_24h {
        let (h, m, _) = t.as_hms();
        let mut out = String::new();
        push_two_digits(&mut out, h as u64);
        proof {
            reveal_strlit(":");
        }
        out.append(":");
        push_two_digits(&mut out, m as u64);
        proof {
            assert(out@ =~= time_text(t@, use_24h));
        }
        out
    } else {
        format_time(t)
    }
}

} // verus!
