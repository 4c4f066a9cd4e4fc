//! Editing of the numeric settings fields.

use vstd::prelude::*;

use crate::text::{
    decimal, explicit_sign_decimal, is_digit, lemma_decimal_reads_back,
    lemma_signed_decimal_parses, parse_i32, parsed_i32, push_char, push_explicit_sign_decimal,
    signed_decimal,
};
use crate::types::{prayer_index, prayer_name, prayer_order, Prayer, PrayerAdjustments};

verus! {

/// What survives of typed text after keeping, character by character:
/// every digit, a `-` when nothing was kept before it, and, when decimals
/// are allowed, the first `.`. The flag tells whether a `.` was kept.
pub open spec fn numeric_filter(s: Seq<char>, allow_decimal: bool) -> (Seq<char>, bool)
    decreases s.len(),
{
    if s.len() == 0 {
        (Seq::empty(), false)
    } else {
        let (kept, has_decimal) = numeric_filter(s.drop_last(), allow_decimal);
        let c = s.last();
        if is_digit(c) {
            (kept.push(c), has_decimal)
        } else if c == '-' && kept.len() == 0 {
            (kept.push(c), has_decimal)
        } else if allow_decimal && c == '.' && !has_decimal {
            (kept.push(c), true)
        } else {
            (kept, has_decimal)
        }
    }
}

/// Keeps from typed text only what can be part of a number: digits, a
/// leading `-`, and (when `allow_decimal`) the first `.`.
pub fn filter_numeric(s: &str, allow_decimal: bool) -> (r: String)
    ensures
        r@ == numeric_filter(s@, allow_decimal).0,
{
    let n = s.unicode_len();
    let mut result = String::new();
    let mut has_decimal = false;
    let mut i: usize = 0;
    while i < n
        invariant
            n == s@.len(),
            0 <= i <= n,
            (result@, has_decimal) == numeric_filter(s@.subrange(0, i as int), allow_decimal),
        decreases n - i,
    {
        let c = s.get_char(i);
        proof {
            assert(s@.subrange(0, i + 1).drop_last() =~= s@.subrange(0, i as int));
        }
        if '0' <= c && c <= '9' {
            push_char(&mut result, c);
        } else if c == '-' && result.unicode_len() == 0 {
            push_char(&mut result, c);
        } else if allow_decimal && c == '.' && !has_decimal {
            has_decimal = true;
            push_char(&mut result, c);
        }
        i = i + 1;
    }
    proof {
        assert(s@.subrange(0, n as int) =~= s@);
    }
    result
}

/// The kept text never holds more than the typed text, and holds only
/// digits, `-` and `.`.
pub proof fn lemma_numeric_filter_shrinks(s: Seq<char>, allow_decimal: bool)
    ensures
        numeric_filter(s, allow_decimal).0.len() <= s.len(),
        forall|i: int|
            0 <= i < numeric_filter(s, allow_decimal).0.len() ==> {
                let c = #[trigger] numeric_filter(s, allow_decimal).0[i];
                is_digit(c) || c == '-' || c == '.'
            },
    decreases s.len(),
{
    if s.len() > 0 {
        lemma_numeric_filter_shrinks(s.drop_last(), allow_decimal);
    }
}

/// Filtering twice keeps the same text as filtering once.
pub proof fn lemma_numeric_filter_idempotent(s: Seq<char>, allow_decimal: bool)
    ensures
        numeric_filter(numeric_filter(s, allow_decimal).0, allow_decimal)
            == numeric_filter(s, allow_decimal),
    decreases s.len(),
{
    if s.len() > 0 {
        let prev = numeric_filter(s.drop_last(), allow_decimal);
        lemma_numeric_filter_idempotent(s.drop_last(), allow_decimal);
        let r = numeric_filter(s, allow_decimal);
        if r.0.len() > prev.0.len() {
            assert(r.0.drop_last() =~= prev.0);
        } else {
            assert(r == prev);
        }
    }
}

/// The largest adjustment accepted, in minutes, either way.
pub const MAX_ADJUSTMENT_MINUTES: i32 = 120;

/// The adjustment a text field holds: its integer value when that lies
/// within two hours either way.
pub open spec fn adjustment_value(s: Seq<char>) -> Option<i32> {
    match parsed_i32(s) {
        Some(v) => if -120 <= v <= 120 {
            Some(v)
        } else {
            None
        },
        None => None,
    }
}

/// Reads an adjustment in minutes from a settings field; `None` unless the
/// text is an integer between -120 and 120.
pub fn parse_adjustment_minutes(s: &str) -> (r: Option<i32>)
    ensures
        r == adjustment_value(s@),
{
    match parse_i32(s) {
        Some(v) => if -120 <= v && v <= 120 {
            Some(v)
        } else {
            None
        },
        None => None,
    }
}

/// Text made of digits, with at most a leading `-`, passes the numeric
/// filter unchanged.
proof fn lemma_numeric_filter_keeps_numeral(s: Seq<char>, allow_decimal: bool)
    requires
        forall|i: int| 0 <= i < s.len() ==> is_digit(#[trigger] s[i]) || (i == 0 && s[i] == '-'),
    ensures
        numeric_filter(s, allow_decimal).0 == s,
    decreases s.len(),
{
    if s.len() > 0 {
        let prefix = s.drop_last();
        assert forall|i: int| 0 <= i < prefix.len() implies is_digit(#[trigger] prefix[i]) || (i == 0
            && prefix[i] == '-') by {
            assert(prefix[i] == s[i]);
        }
        lemma_numeric_filter_keeps_numeral(prefix, allow_decimal);
        assert(s.last() == s[s.len() - 1]);
        assert(prefix.push(s.last()) =~= s);
    }
}

/// Every adjustment within two hours either way is accepted: typing the
/// numeral of any `v` from -120 to 120 keeps that text through the filter
/// and reads as exactly `v` minutes (zero included, so an offset can be
/// reset); the numeral of anything outside that range is refused.
pub proof fn lemma_every_adjustment_in_range_is_accepted(v: i32)
    ensures
        -120 <= v <= 120 ==> numeric_filter(signed_decimal(v as int), false).0 == signed_decimal(
            v as int,
        ),
        -120 <= v <= 120 ==> adjustment_value(signed_decimal(v as int)) == Some(v),
        !(-120 <= v <= 120) ==> adjustment_value(signed_decimal(v as int)) is None,
{
    lemma_signed_decimal_parses(v);
    let text = signed_decimal(v as int);
    if v < 0 {
        let m = (-(v as int)) as nat;
        lemma_decimal_reads_back(m);
        assert forall|i: int| 0 <= i < text.len() implies is_digit(#[trigger] text[i]) || (i == 0
            && text[i] == '-') by {
            if i > 0 {
                assert(text[i] == decimal(m)[i - 1]);
            }
        }
    } else {
        lemma_decimal_reads_back(v as nat);
        assert forall|i: int| 0 <= i < text.len() implies is_digit(#[trigger] text[i]) || (i == 0
            && text[i] == '-') by {
            assert(text[i] == decimal(v as nat)[i]);
        }
    }
    lemma_numeric_filter_keeps_numeral(text, false);
}

/// Handles an edit of the adjustment field of one prayer: the field keeps
/// only the numeric characters of the typed text, and when that text holds
/// an accepted adjustment it replaces the prayer's offset. Returns the kept
/// text and whether the offsets changed.
pub fn edit_adjustment(adjustments: &mut PrayerAdjustments, prayer: Prayer, typed: &str) -> (r: (
    String,
    bool,
))
    ensures
        r.0@ == numeric_filter(typed@, false).0,
        r.1 == adjustment_value(r.0@) is Some,
        adjustment_value(r.0@) matches Some(v) ==> final(adjustments)@ == old(adjustments)@.update(
            prayer_index(prayer),
            v,
        ),
        adjustment_value(r.0@) is None ==> final(adjustments)@ == old(adjustments)@,
{
    let kept = filter_numeric(typed, false);
    match parse_adjustment_minutes(kept.as_str()) {
        Some(minutes) => {
            adjustments.set(prayer, minutes);
            (kept, true)
        },
        None => (kept, false),
    }
}

/// One entry of the adjustment summary, such as `Dhuhr +1`.
pub open spec fn adjustment_entry(p: Prayer, minutes: int) -> Seq<char> {
    prayer_name(p) + seq![' '] + explicit_sign_decimal(minutes)
}

/// The entries for the prayers among the first `n` whose offset is not zero.
pub open spec fn adjustment_entries(adj: Seq<i32>, n: int) -> Seq<Seq<char>>
    decreases n,
{
    if n <= 0 {
        Seq::empty()
    } else if adj[n - 1] != 0 {
        adjustment_entries(adj, n - 1).push(adjustment_entry(prayer_order()[n - 1], adj[n - 1] as int))
    } else {
        adjustment_entries(adj, n - 1)
    }
}

/// Pieces of text joined with a separator between consecutive pieces.
pub open spec fn joined(parts: Seq<Seq<char>>, sep: Seq<char>) -> Seq<char>
    decreases parts.len(),
{
    if parts.len() == 0 {
        Seq::empty()
    } else if parts.len() == 1 {
        parts[0]
    } else {
        joined(parts.drop_last(), sep) + sep + parts.last()
    }
}

/// The non-zero adjustments in chronological order, such as
/// `Dhuhr +1  Asr -2`, separated by two spaces; empty when all are zero.
pub fn adjustment_summary(adjustments: PrayerAdjustments) -> (s: String)
    ensures
        s@ == joined(adjustment_entries(adjustments@, 6), "  "@),
{
    proof {
        PrayerAdjustments::lemma_six_entries(adjustments);
        reveal_strlit("  ");
        reveal_strlit(" ");
    }
    let all = Prayer::all();
    let mut out = String::new();
    let mut count: usize = 0;
    let mut i: usize = 0;
    while i < 6
        invariant
            0 <= i <= 6,
            all@ == prayer_order(),
            adjustments@.len() == 6,
            count == adjustment_entries(adjustments@, i as int).len(),
            count <= i,
            out@ == joined(adjustment_entries(adjustments@, i as int), "  "@),
        decreases 6 - i,
    {
        proof {
            reveal_strlit("  ");
            reveal_strlit(" ");
        }
        let prayer = all[i];
        let minutes = adjustments.get(prayer);
        assert(prayer_index(prayer) == i);
        if minutes != 0 {
            let ghost before = out@;
            if count > 0 {
                out.append("  ");
            }
            out.append(prayer.name());
            out.append(" ");
            push_explicit_sign_decimal(&mut out, minutes as i64);
            proof {
                let prev = adjustment_entries(adjustments@, i as int);
                let parts = adjustment_entries(adjustments@, i + 1);
                let entry = adjustment_entry(prayer, minutes as int);
                assert(parts == prev.push(entry));
                assert(parts.drop_last() =~= prev);
                if count > 0 {
                    assert(out@ =~= before + "  "@ + entry);
                } else {
                    assert(prev.len() == 0);
                    assert(before =~= Seq::<char>::empty());
                    assert(out@ =~= entry);
                }
                assert(out@ =~= joined(parts, "  "@));
            }
            count = count + 1;
        }
        i = i + 1;
    }
    out
}

} // verus!
