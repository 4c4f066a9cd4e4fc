use vstd::prelude::*;

verus! {

/// The decimal digit character for `d` (`0 <= d < 10`).
pub open spec fn digit_char(d: int) -> char {
    if d == 0 {
        '0'
    } else if d == 1 {
        '1'
    } else if d == 2 {
        '2'
    } else if d == 3 {
        '3'
    } else if d == 4 {
        '4'
    } else if d == 5 {
        '5'
    } else if d == 6 {
        '6'
    } else if d == 7 {
        '7'
    } else if d == 8 {
        '8'
    } else {
        '9'
    }
}

/// The decimal numeral of a natural number, without leading zeros.
pub open spec fn decimal(n: nat) -> Seq<char>
    decreases n,
{
    if n < 10 {
        seq![digit_char(n as int)]
    } else {
        decimal(n / 10).push(digit_char((n % 10) as int))
    }
}

/// The decimal numeral of an integer, with a leading `-` when negative.
pub open spec fn signed_decimal(n: int) -> Seq<char> {
    if n < 0 {
        seq!['-'] + decimal((-n) as nat)
    } else {
        decimal(n as nat)
    }
}

/// The decimal numeral of an integer, with a leading `+` or `-`.
pub open spec fn explicit_sign_decimal(n: int) -> Seq<char> {
    if n < 0 {
        seq!['-'] + decimal((-n) as nat)
    } else {
        seq!['+'] + decimal(n as nat)
    }
}

/// `s` preceded by as many `'0'` characters as needed to reach `width`.
pub open spec fn zero_padded(s: Seq<char>, width: nat) -> Seq<char> {
    if s.len() >= width {
        s
    } else {
        Seq::new((width - s.len()) as nat, |i: int| '0') + s
    }
}

/// The decimal numeral of `n`, zero-padded to at least two digits.
pub open spec fn two_digits(n: nat) -> Seq<char> {
    zero_padded(decimal(n), 2)
}

/// The one-character string of a decimal digit.
fn digit_str(d: u64) -> (s: &'static str)
    requires
        d < 10,
    ensures
        s@ == seq![digit_char(d as int)],
{
    if d == 0 {
        proof {
            reveal_strlit("0");
        }
        "0"
    } else if d == 1 {
        proof {
            reveal_strlit("1");
        }
        "1"
    } else if d == 2 {
        proof {
            reveal_strlit("2");
        }
        "2"
    } else if d == 3 {
        proof {
            reveal_strlit("3");
        }
        "3"
    } else if d == 4 {
        proof {
            reveal_strlit("4");
        }
        "4"
    } else if d == 5 {
        proof {
            reveal_strlit("5");
        }
        "5"
    } else if d == 6 {
        proof {
            reveal_strlit("6");
        }
        "6"
    } else if d == 7 {
        proof {
            reveal_strlit("7");
        }
        "7"
    } else if d == 8 {
        proof {
            reveal_strlit("8");
        }
        "8"
    } else {
        proof {
            reveal_strlit("9");
        }
        "9"
    }
}

/// Appends the decimal numeral of `n` to `out`.
pub fn push_decimal(out: &mut String, n: u64)
    ensures
        final(out)@ == old(out)@ + decimal(n as nat),
    decreases n,
{
    if n >= 10 {
        push_decimal(out, n / 10);
    }
    out.append(digit_str(n % 10));
    proof {
        if n >= 10 {
            assert(old(out)@ + decimal(n as nat) =~= old(out)@ + decimal((n / 10) as nat) + seq![
                digit_char((n % 10) as int),
            ]);
        }
    }
}

/// Appends the decimal numeral of `n`, zero-padded to two digits.
pub fn push_two_digits(out: &mut String, n: u64)
    ensures
        final(out)@ == old(out)@ + two_digits(n as nat),
{
    if n < 10 {
        out.append(digit_str(0));
        proof {
            reveal_with_fuel(decimal, 1);
            assert(two_digits(n as nat) =~= seq!['0'] + decimal(n as nat));
        }
    } else {
        proof {
            lemma_decimal_len_at_least_two(n as nat);
        }
    }
    push_decimal(out, n);
    proof {
        assert(final(out)@ =~= old(out)@ + two_digits(n as nat));
    }
}

proof fn lemma_decimal_len_at_least_two(n: nat)
    requires
        n >= 10,
    ensures
        decimal(n).len() >= 2,
    decreases n,
{
    assert(decimal(n / 10).len() >= 1) by {
        lemma_decimal_nonempty(n / 10);
    }
}

/// Every numeral has at least one digit.
pub proof fn lemma_decimal_nonempty(n: nat)
    ensures
        decimal(n).len() >= 1,
    decreases n,
{
    if n >= 10 {
        lemma_decimal_nonempty(n / 10);
    }
}

/// Appends the decimal numeral of `n`, with a `-` when negative.
pub fn push_signed_decimal(out: &mut String, n: i64)
    ensures
        final(out)@ == old(out)@ + signed_decimal(n as int),
{
    if n < 0 {
        proof {
            reveal_strlit("-");
        }
        out.append("-");
        let magnitude: u64 = if n == i64::MIN {
            9_223_372_036_854_775_808u64
        } else {
            (-n) as u64
        };
        push_decimal(out, magnitude);
        proof {
            assert(final(out)@ =~= old(out)@ + signed_decimal(n as int));
        }
    } else {
        push_decimal(out, n as u64);
    }
}

/// Appends the decimal numeral of `n` with an explicit `+` or `-`.
pub fn push_explicit_sign_decimal(out: &mut String, n: i64)
    ensures
        final(out)@ == old(out)@ + explicit_sign_decimal(n as int),
{
    if n < 0 {
        push_signed_decimal(out, n);
        proof {
            assert(signed_decimal(n as int) =~= explicit_sign_decimal(n as int));
        }
    } else {
        proof {
            reveal_strlit("+");
        }
        out.append("+");
        push_decimal(out, n as u64);
        proof {
            assert(final(out)@ =~= old(out)@ + explicit_sign_decimal(n as int));
        }
    }
}

} // verus!

verus! {

/// Whether two strings hold the same characters.
pub fn str_eq(a: &str, b: &str) -> (r: bool)
    ensures
        r == (a@ == b@),
{
    let n = a.unicode_len();
    if n != b.unicode_len() {
        return false;
    }
    let mut i: usize = 0;
    while i < n
        invariant
            n == a@.len() == b@.len(),
            0 <= i <= n,
            forall|k: int| 0 <= k < i ==> a@[k] == b@[k],
        decreases n - i,
    {
        if a.get_char(i) != b.get_char(i) {
            return false;
        }
        i = i + 1;
    }
    assert(a@ =~= b@);
    true
}

} // verus!

verus! {

/// Appends one character to a string, with `String::push` from std.
/// Claimed: the string afterwards is the old one followed by `c`.
#[verifier::external_body]
pub(crate) fn push_char(out: &mut String, c: char)
    ensures
        final(out)@ == old(out)@.push(c),
{
    out.push(c);
}

/// Whether `c` is one of the ASCII digits `0`-`9`.
pub open spec fn is_digit(c: char) -> bool {
    '0' <= c && c <= '9'
}

/// The value of an ASCII digit character.
pub open spec fn digit_value(c: char) -> int {
    (c as int) - ('0' as int)
}

/// The value of a sequence of ASCII digits read in base ten.
pub open spec fn digits_value(s: Seq<char>) -> int
    decreases s.len(),
{
    if s.len() == 0 {
        0
    } else {
        digits_value(s.drop_last()) * 10 + digit_value(s.last())
    }
}

/// Whether every character of `s` is an ASCII digit.
pub open spec fn all_digits(s: Seq<char>) -> bool {
    forall|i: int| 0 <= i < s.len() ==> is_digit(#[trigger] s[i])
}

/// The value of a decimal integer literal with an optional `+` or `-`
/// sign, as `str::parse::<i32>` reads it; `None` when the text is not such
/// a literal or the value does not fit an `i32`.
pub open spec fn parsed_i32(s: Seq<char>) -> Option<i32> {
    let negative = s.len() > 0 && s[0] == '-';
    let signed = s.len() > 0 && (s[0] == '-' || s[0] == '+');
    let digits = if signed {
        s.drop_first()
    } else {
        s
    };
    let value = if negative {
        -digits_value(digits)
    } else {
        digits_value(digits)
    };
    if digits.len() == 0 || !all_digits(digits) || value < i32::MIN || value > i32::MAX {
        None
    } else {
        Some(value as i32)
    }
}

proof fn lemma_digits_value_push(s: Seq<char>, c: char)
    ensures
        digits_value(s.push(c)) == digits_value(s) * 10 + digit_value(c),
{
    assert(s.push(c).drop_last() =~= s);
}

proof fn lemma_digits_value_nonneg(s: Seq<char>)
    requires
        all_digits(s),
    ensures
        digits_value(s) >= 0,
    decreases s.len(),
{
    if s.len() > 0 {
        lemma_digits_value_nonneg(s.drop_last());
    }
}

proof fn lemma_digits_value_monotone(s: Seq<char>, n: int)
    requires
        all_digits(s),
        0 <= n <= s.len(),
    ensures
        digits_value(s.subrange(0, n)) <= digits_value(s),
    decreases s.len() - n,
{
    if n < s.len() {
        lemma_digits_value_monotone(s, n + 1);
        let t = s.subrange(0, n + 1);
        assert(t.drop_last() =~= s.subrange(0, n));
        assert(all_digits(s.subrange(0, n)));
        lemma_digits_value_nonneg(s.subrange(0, n));
    } else {
        assert(s.subrange(0, n) =~= s);
    }
}

/// Reads a decimal `i32` with an optional sign, as `str::parse::<i32>`
/// does.
pub fn parse_i32(s: &str) -> (r: Option<i32>)
    ensures
        r == parsed_i32(s@),
{
    let n = s.unicode_len();
    if n == 0 {
        return None;
    }
    let first = s.get_char(0);
    let negative = first == '-';
    let start: usize = if first == '-' || first == '+' {
        1
    } else {
        0
    };
    let ghost digits = if start == 1 {
        s@.drop_first()
    } else {
        s@
    };
    proof {
        assert(digits =~= s@.subrange(start as int, n as int));
    }
    if start == n {
        return None;
    }
    // The magnitude so far, kept below 2^31 + 1 so it always fits an i64.
    let mut value: i64 = 0;
    let mut i: usize = start;
    while i < n
        invariant
            n == s@.len(),
            n > 0,
            first == s@[0],
            negative == (first == '-'),
            start == (if first == '-' || first == '+' {
                1usize
            } else {
                0usize
            }),
            start < n,
            start <= i <= n,
            digits == s@.subrange(start as int, n as int),
            digits == (if start == 1 {
                s@.drop_first()
            } else {
                s@
            }),
            forall|k: int| start <= k < i ==> is_digit(#[trigger] s@[k]),
            value == digits_value(s@.subrange(start as int, i as int)),
            0 <= value <= 2_147_483_648,
        decreases n - i,
    {
        let c = s.get_char(i);
        if !('0' <= c && c <= '9') {
            proof {
                assert(digits[i - start] == c);
                assert(!is_digit(digits[i - start]));
                assert(!all_digits(digits));
            }
            return None;
        }
        proof {
            assert(s@.subrange(start as int, i + 1) =~= s@.subrange(start as int, i as int).push(c));
            lemma_digits_value_push(s@.subrange(start as int, i as int), c);
        }
        let d = (c as u32 - '0' as u32) as i64;
        let next = value * 10 + d;
        assert(next == digits_value(s@.subrange(start as int, i + 1)));
        if next > 2_147_483_648 {
            proof {
                if all_digits(digits) {
                    assert(digits.subrange(0, i + 1 - start) =~= s@.subrange(start as int, i + 1));
                    lemma_digits_value_monotone(digits, i + 1 - start);
                    assert(digits_value(digits) > 2_147_483_648);
                }

            }
            return None;
        }
        value = next;
        i = i + 1;
    }
    proof {
        assert(all_digits(digits));
    }
    if negative {
        Some((-value) as i32)
    } else if value > 2_147_483_647 {
        None
    } else {
        Some(value as i32)
    }
}

/// The base-ten value of a digit character read back from `digit_char`.
proof fn lemma_digit_char_value(d: int)
    requires
        0 <= d < 10,
    ensures
        is_digit(digit_char(d)),
        digit_value(digit_char(d)) == d,
{
}

/// Reading a numeral back gives its number: the decimal numeral of `n`
/// consists of digits only, and their base-ten value is `n`.
pub proof fn lemma_decimal_reads_back(n: nat)
    ensures
        all_digits(decimal(n)),
        digits_value(decimal(n)) == n,
        decimal(n).len() >= 1,
    decreases n,
{
    if n < 10 {
        lemma_digit_char_value(n as int);
        assert(decimal(n) =~= Seq::<char>::empty().push(digit_char(n as int)));
        lemma_digits_value_push(Seq::empty(), digit_char(n as int));
    } else {
        lemma_decimal_reads_back(n / 10);
        lemma_digit_char_value((n % 10) as int);
        lemma_digits_value_push(decimal(n / 10), digit_char((n % 10) as int));
        let prev = decimal(n / 10);
        assert forall|i: int| 0 <= i < decimal(n).len() implies is_digit(#[trigger] decimal(n)[i]) by {
            if i < prev.len() {
                assert(decimal(n)[i] == prev[i]);
            }
        }
    }
}

/// Reading a two-digit field back gives its number: it holds digits only,
/// at least two of them (exactly two below 100), and their value is `n`.
pub proof fn lemma_two_digits_reads_back(n: nat)
    ensures
        all_digits(two_digits(n)),
        digits_value(two_digits(n)) == n,
        two_digits(n).len() >= 2,
        n < 100 ==> two_digits(n).len() == 2,
{
    lemma_decimal_reads_back(n);
    if n < 10 {
        lemma_digit_char_value(n as int);
        assert(two_digits(n) =~= seq!['0'].push(digit_char(n as int)));
        assert(seq!['0'] =~= Seq::<char>::empty().push('0'));
        lemma_digits_value_push(Seq::empty(), '0');
        lemma_digits_value_push(seq!['0'], digit_char(n as int));
    } else {
        lemma_decimal_len_at_least_two(n);
        if n < 100 {
            assert(decimal(n / 10) =~= seq![digit_char((n / 10) as int)]);
        }
    }
}

/// Every integer's numeral reads back as that integer: `str::parse` of the
/// text `signed_decimal(v)` gives `v`.
pub proof fn lemma_signed_decimal_parses(v: i32)
    ensures
        parsed_i32(signed_decimal(v as int)) == Some(v),
{
    if v < 0 {
        let m = (-(v as int)) as nat;
        lemma_decimal_reads_back(m);
        assert((seq!['-'] + decimal(m)).drop_first() =~= decimal(m));
    } else {
        lemma_decimal_reads_back(v as nat);
        assert(is_digit(decimal(v as nat)[0]));
    }
}

} // verus!

verus! {

/// `n` spaces.
pub open spec fn spaces(n: int) -> Seq<char> {
    Seq::new(if n > 0 {
        n as nat
    } else {
        0
    }, |i: int| ' ')
}

/// `s` followed by spaces up to `width` characters (left-aligned).
pub open spec fn pad_right(s: Seq<char>, width: int) -> Seq<char> {
    s + spaces(width - s.len())
}

/// `s` preceded by spaces up to `width` characters (right-aligned).
pub open spec fn pad_left(s: Seq<char>, width: int) -> Seq<char> {
    spaces(width - s.len()) + s
}

/// Appends `n` spaces.
pub fn push_spaces(out: &mut String, n: usize)
    ensures
        final(out)@ == old(out)@ + spaces(n as int),
{
    let mut i: usize = 0;
    while i < n
        invariant
            0 <= i <= n,
            out@ == old(out)@ + spaces(i as int),
        decreases n - i,
    {
        proof {
            reveal_strlit(" ");
        }
        out.append(" ");
        proof {
            assert(out@ =~= old(out)@ + spaces(i + 1));
        }
        i = i + 1;
    }
}

/// Appends `s` left-aligned in a field of `width` characters.
pub fn push_padded_right(out: &mut String, s: &str, width: usize)
    ensures
        final(out)@ == old(out)@ + pad_right(s@, width as int),
{
    let len = s.unicode_len();
    out.append(s);
    let fill: usize = if len < width {
        width - len
    } else {
        0
    };
    push_spaces(out, fill);
    proof {
        assert(spaces(fill as int) =~= spaces(width - s@.len()));
        assert(final(out)@ =~= old(out)@ + pad_right(s@, width as int));
    }
}

/// Appends `s` right-aligned in a field of `width` characters.
pub fn push_padded_left(out: &mut String, s: &str, width: usize)
    ensures
        final(out)@ == old(out)@ + pad_left(s@, width as int),
{
    let len = s.unicode_len();
    let fill: usize = if len < width {
        width - len
    } else {
        0
    };
    push_spaces(out, fill);
    out.append(s);
    proof {
        assert(spaces(fill as int) =~= spaces(width - s@.len()));
        assert(final(out)@ =~= old(out)@ + pad_left(s@, width as int));
    }
}

} // verus!
