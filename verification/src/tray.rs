use vstd::prelude::*;

use crate::clock::{Time, NANOS_PER_DAY, NANOS_PER_MINUTE};
use crate::format::{format_clock, time_text};
use crate::prayer::{next_prayer, time_until, upcoming_prayer, wait_nanos};
use crate::text::{decimal, push_decimal};
use crate::types::{prayer_name, PrayerTimes};

verus! {

/// A request made from the system tray menu.
#[derive(Debug, Clone, Copy)]
pub enum TrayEvent {
    ToggleWindow,
    Exit,
    StopAdhan,
}

/// The whole minutes from `now` until the next occurrence of `target`
/// (both in nanoseconds since midnight).
pub open spec fn minutes_until(target: nat, now: nat) -> int {
    wait_nanos(target, now) / (NANOS_PER_MINUTE as int)
}

/// The tray tooltip: the next prayer, its time, and the wait in hours and
/// minutes (minutes only when under an hour), such as
/// `Asr at 3:17 PM — in 2h 5m`, the time on a 24-hour clock when `use_24h`.
pub open spec fn tooltip_text(times: PrayerTimes, now: Time, use_24h: bool) -> Seq<char> {
    let (p, t) = upcoming_prayer(times, now@);
    let total = minutes_until(t@, now@);
    let head = prayer_name(p) + " at "@ + time_text(t@, use_24h) + " — in "@;
    if total / 60 > 0 {
        head + decimal((total / 60) as nat) + "h "@ + decimal((total % 60) as nat) + "m"@
    } else {
        head + decimal((total % 60) as nat) + "m"@
    }
}

/// The numbers in the tooltip add up to the wait. The tooltip names the
/// next prayer and its time, then reads either `in Hh Mm`, with `H` at
/// least 1, `M` below 60 and `60 H + M` the whole minutes until the prayer,
/// or `in Mm`, with `M` those whole minutes, below one hour; so a wait of
/// an hour or more always shows its hours.
pub proof fn lemma_tooltip_wait_adds_up(times: PrayerTimes, now: Time, use_24h: bool)
    requires
        now@ < NANOS_PER_DAY,
    ensures
        ({
            let (p, t) = upcoming_prayer(times, now@);
            let wait = wait_nanos(t@, now@) / (NANOS_PER_MINUTE as int);
            let head = prayer_name(p) + " at "@ + time_text(t@, use_24h) + " — in "@;
            let tip = tooltip_text(times, now, use_24h);
            ||| exists|h: nat, m: nat|
                #![trigger decimal(h), decimal(m)]
                h >= 1 && m < 60 && 60 * h + m == wait && tip == head + decimal(h) + "h "@
                    + decimal(m) + "m"@
            ||| exists|m: nat|
                #![trigger decimal(m)]
                m < 60 && m == wait && tip == head + decimal(m) + "m"@
        }),
{
    let (p, t) = upcoming_prayer(times, now@);
    let wait = wait_nanos(t@, now@) / (NANOS_PER_MINUTE as int);
    let head = prayer_name(p) + " at "@ + time_text(t@, use_24h) + " — in "@;
    let tip = tooltip_text(times, now, use_24h);
    assert(wait_nanos(t@, now@) > 0);
    assert(wait >= 0);
    if wait / 60 > 0 {
        let h = (wait / 60) as nat;
        let m = (wait % 60) as nat;
        assert(tip == head + decimal(h) + "h "@ + decimal(m) + "m"@);
        assert(60 * h + m == wait);
    } else {
        let m = (wait % 60) as nat;
        assert(tip == head + decimal(m) + "m"@);
        assert(m == wait);
    }
}

/// The tray tooltip for the local time `now`.
pub fn tray_tooltip(times: &PrayerTimes, now: Time, use_24h: bool) -> (s: String)
    ensures
        s@ == tooltip_text(*times, now, use_24h),
{
    let (prayer, ptime) = next_prayer(times, now);
    let remaining = time_until(ptime, now);
    let total_minutes = remaining.whole_minutes();
    let hours = total_minutes / 60;
    let mins = total_minutes % 60;
    let mut out = String::from_str(prayer.name());
    out.append(" at ");
    let clock = format_clock(ptime, use_24h);
    out.append(clock.as_str());
    out.append(" — in ");
    if hours > 0 {
        push_decimal(&mut out, hours as u64);
        out.append("h ");
        push_decimal(&mut out, mins as u64);
        out.append("m");
    } else {
        push_decimal(&mut out, mins as u64);
        out.append("m");
    }
    proof {
        assert(out@ =~= tooltip_text(*times, now, use_24h));
    }
    out
}

} // verus!

verus! {

/// One line of the tray menu.
#[derive(Debug, Clone, Copy)]
pub enum TrayMenuItem {
    /// A clickable entry with its label and the request it makes.
    Entry { label: &'static str, event: TrayEvent },
    /// A dividing line.
    Separator,
}

/// Whether a menu line is the entry with the given label and request.
pub open spec fn is_entry(item: TrayMenuItem, label: Seq<char>, event: TrayEvent) -> bool {
    item matches TrayMenuItem::Entry { label: l, event: e } && l@ == label && e == event
}

/// Whether a menu line is a dividing line.
pub open spec fn is_separator(item: TrayMenuItem) -> bool {
    item is Separator
}

/// The tray menu: the window toggle (`Hide` while the window is open,
/// `Show` otherwise), `Stop Adhan` while a call is playing, and `Exit`,
/// with dividing lines between the groups.
pub fn tray_menu(is_window_open: bool, playing: bool) -> (items: Vec<TrayMenuItem>)
    ensures
        items@.len() == if playing {
            5int
        } else {
            3int
        },
        is_entry(
            items@[0],
            if is_window_open {
                "Hide"@
            } else {
                "Show"@
            },
            TrayEvent::ToggleWindow,
        ),
        is_separator(items@[1]),
        playing ==> is_entry(items@[2], "Stop Adhan"@, TrayEvent::StopAdhan) && is_separator(
            items@[3],
        ),
        is_entry(items@[items@.len() - 1], "Exit"@, TrayEvent::Exit),
{
    let toggle_label = if is_window_open {
        "Hide"
    } else {
        "Show"
    };
    let mut items = Vec::new();
    items.push(TrayMenuItem::Entry { label: toggle_label, event: TrayEvent::ToggleWindow });
    items.push(TrayMenuItem::Separator);
    if playing {
        items.push(TrayMenuItem::Entry { label: "Stop Adhan", event: TrayEvent::StopAdhan });
        items.push(TrayMenuItem::Separator);
    }
    items.push(TrayMenuItem::Entry { label: "Exit", event: TrayEvent::Exit });
    items
}

/// Reorders the bytes of each whole RGBA pixel into ARGB order; a trailing
/// partial pixel is dropped.
pub fn argb_from_rgba(rgba: &[u8]) -> (argb: Vec<u8>)
    ensures
        argb@.len() == 4 * (rgba@.len() / 4),
        forall|k: int|
            0 <= k < rgba@.len() / 4 ==> {
                &&& #[trigger] argb@[4 * k] == rgba@[4 * k + 3]
                &&& argb@[4 * k + 1] == rgba@[4 * k]
                &&& argb@[4 * k + 2] == rgba@[4 * k + 1]
                &&& argb@[4 * k + 3] == rgba@[4 * k + 2]
            },
{
    let len = rgba.len();
    let pixels = len / 4;
    let mut argb: Vec<u8> = Vec::new();
    let mut p: usize = 0;
    while p < pixels
        invariant
            len == rgba@.len(),
            pixels == rgba@.len() / 4,
            0 <= p <= pixels,
            argb@.len() == 4 * p,
            forall|k: int|
                0 <= k < p ==> {
                    &&& #[trigger] argb@[4 * k] == rgba@[4 * k + 3]
                    &&& argb@[4 * k + 1] == rgba@[4 * k]
                    &&& argb@[4 * k + 2] == rgba@[4 * k + 1]
                    &&& argb@[4 * k + 3] == rgba@[4 * k + 2]
                },
        decreases pixels - p,
    {
        assert(4 * p + 4 <= rgba@.len()) by (nonlinear_arith)
            requires
                p < pixels,
                pixels == rgba@.len() / 4,
        ;
        let base = 4 * p;
        let ghost before = argb@;
        argb.push(rgba[base + 3]);
        argb.push(rgba[base]);
        argb.push(rgba[base + 1]);
        argb.push(rgba[base + 2]);
        assert forall|k: int| 0 <= k < p + 1 implies {
            &&& #[trigger] argb@[4 * k] == rgba@[4 * k + 3]
            &&& argb@[4 * k + 1] == rgba@[4 * k]
            &&& argb@[4 * k + 2] == rgba@[4 * k + 1]
            &&& argb@[4 * k + 3] == rgba@[4 * k + 2]
        } by {
            if k < p {
                assert(4 * k + 3 < 4 * p);
                assert(argb@[4 * k] == before[4 * k]);
                assert(argb@[4 * k + 1] == before[4 * k + 1]);
                assert(argb@[4 * k + 2] == before[4 * k + 2]);
                assert(argb@[4 * k + 3] == before[4 * k + 3]);
            }
        }
        p = p + 1;
    }
    argb
}

} // verus!
