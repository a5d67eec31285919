use crate::date::CalendarDate;
use vstd::arithmetic::div_mod::lemma_mod_breakdown;
use vstd::prelude::*;
use vstd::string::StringExecFns;

verus! {

/// The decimal digit character for `d` (in `0..=9`).
pub open spec fn digit_char(d: int) -> char {
    if d == 0 {
        '0'
    } else if d == 1 {
        '1'
    } else if d == 2 {
        '2'
    } else if d == 3 {
        '3'
    } else if d == 4 {
        '4'
    } else if d == 5 {
        '5'
    } else if d == 6 {
        '6'
    } else if d == 7 {
        '7'
    } else if d == 8 {
        '8'
    } else {
        '9'
    }
}

/// The value of a decimal digit character, or `None` for any other character.
pub open spec fn digit_value(c: char) -> Option<int> {
    if c == '0' {
        Some(0)
    } else if c == '1' {
        Some(1)
    } else if c == '2' {
        Some(2)
    } else if c == '3' {
        Some(3)
    } else if c == '4' {
        Some(4)
    } else if c == '5' {
        Some(5)
    } else if c == '6' {
        Some(6)
    } else if c == '7' {
        Some(7)
    } else if c == '8' {
        Some(8)
    } else if c == '9' {
        Some(9)
    } else {
        None
    }
}

/// The usual decimal text of `n`, without leading zeros.
pub open spec fn decimal(n: nat) -> Seq<char>
    decreases n,
{
    if n < 10 {
        seq![digit_char(n as int)]
    } else {
        decimal(n / 10).push(digit_char((n % 10) as int))
    }
}

/// The decimal text of a signed integer: a minus sign before a negative one.
pub open spec fn signed_decimal(n: int) -> Seq<char> {
    if n < 0 {
        seq!['-'] + decimal((-n) as nat)
    } else {
        decimal(n as nat)
    }
}

/// The last `width` decimal digits of `n`, zeros in front where `n` has fewer.
pub open spec fn fixed_digits(n: nat, width: nat) -> Seq<char>
    decreases width,
{
    if width == 0 {
        Seq::empty()
    } else {
        fixed_digits(n / 10, (width - 1) as nat).push(digit_char((n % 10) as int))
    }
}

/// The number that a string of decimal digits reads as.
pub open spec fn digits_number(s: Seq<char>) -> int
    decreases s.len(),
{
    if s.len() == 0 {
        0
    } else {
        digits_number(s.drop_last()) * 10 + digit_value(s.last()).unwrap_or(0)
    }
}

pub open spec fn pow10(width: nat) -> nat
    decreases width,
{
    if width == 0 {
        1
    } else {
        10 * pow10((width - 1) as nat)
    }
}

/// A date as `YYYYMMDD`: four digits of year, two of month, two of day.
pub open spec fn date_chars(date: CalendarDate) -> Seq<char> {
    fixed_digits(date.year as nat, 4) + fixed_digits(date.month as nat, 2) + fixed_digits(
        date.day as nat,
        2,
    )
}

/// The dates that `format_date` renders: existing days of the years `0..=9999`.
pub open spec fn formattable(date: CalendarDate) -> bool {
    date.wf() && 0 <= date.year <= 9999
}

proof fn lemma_pow10_positive(width: nat)
    ensures
        pow10(width) > 0,
    decreases width,
{
    if width > 0 {
        lemma_pow10_positive((width - 1) as nat);
    }
}

proof fn lemma_fixed_digits(n: nat, width: nat)
    ensures
        fixed_digits(n, width).len() == width,
        forall|i: int| 0 <= i < width ==> #[trigger] digit_value(fixed_digits(n, width)[i]) is Some,
        digits_number(fixed_digits(n, width)) == n % pow10(width),
    decreases width,
{
    if width > 0 {
        let w1 = (width - 1) as nat;
        lemma_fixed_digits(n / 10, w1);
        lemma_pow10_positive(w1);
        let prefix = fixed_digits(n / 10, w1);
        let s = fixed_digits(n, width);
        assert(s.drop_last() =~= prefix);
        assert(digit_value(digit_char((n % 10) as int)) == Some((n % 10) as int));
        assert forall|i: int| 0 <= i < width implies #[trigger] digit_value(s[i]) is Some by {
            if i < w1 {
                assert(s[i] == prefix[i]);
            }
        }
        lemma_mod_breakdown(n as int, 10, pow10(w1) as int);
    }
}

/// A formatted date is exactly eight decimal digits, and its year, month and
/// day fields, zero-padded to four, two and two digits, read back as the
/// date's year, month and day.
pub proof fn lemma_format_date_fixed_width(date: CalendarDate)
    requires
        formattable(date),
    ensures
        date_chars(date).len() == 8,
        forall|i: int| 0 <= i < 8 ==> #[trigger] digit_value(date_chars(date)[i]) is Some,
        digits_number(date_chars(date).subrange(0, 4)) == date.year,
        digits_number(date_chars(date).subrange(4, 6)) == date.month,
        digits_number(date_chars(date).subrange(6, 8)) == date.day,
{
    let y = fixed_digits(date.year as nat, 4);
    let m = fixed_digits(date.month as nat, 2);
    let d = fixed_digits(date.day as nat, 2);
    lemma_fixed_digits(date.year as nat, 4);
    lemma_fixed_digits(date.month as nat, 2);
    lemma_fixed_digits(date.day as nat, 2);
    assert(pow10(2) == 100) by {
        reveal_with_fuel(pow10, 3);
    }
    assert(pow10(4) == 10000) by {
        reveal_with_fuel(pow10, 5);
    }
    let s = date_chars(date);
    assert(s.subrange(0, 4) =~= y);
    assert(s.subrange(4, 6) =~= m);
    assert(s.subrange(6, 8) =~= d);
    assert forall|i: int| 0 <= i < 8 implies #[trigger] digit_value(s[i]) is Some by {
        if i < 4 {
            assert(s[i] == y[i]);
        } else if i < 6 {
            assert(s[i] == m[i - 4]);
        } else {
            assert(s[i] == d[i - 6]);
        }
    }
}

fn digit_str(d: u32) -> (r: &'static str)
    requires
        d < 10,
    ensures
        r@ == seq![digit_char(d as int)],
{
    match d {
        0 => {
            proof { reveal_strlit("0"); }
            "0"
        },
        1 => {
            proof { reveal_strlit("1"); }
            "1"
        },
        2 => {
            proof { reveal_strlit("2"); }
            "2"
        },
        3 => {
            proof { reveal_strlit("3"); }
            "3"
        },
        4 => {
            proof { reveal_strlit("4"); }
            "4"
        },
        5 => {
            proof { reveal_strlit("5"); }
            "5"
        },
        6 => {
            proof { reveal_strlit("6"); }
            "6"
        },
        7 => {
            proof { reveal_strlit("7"); }
            "7"
        },
        8 => {
            proof { reveal_strlit("8"); }
            "8"
        },
        _ => {
            proof { reveal_strlit("9"); }
            "9"
        },
    }
}

/// Appends the last `width` digits of `n`, zero-padded.
fn append_fixed_digits(s: &mut String, n: u32, width: u32)
    ensures
        final(s)@ == old(s)@ + fixed_digits(n as nat, width as nat),
    decreases width,
{
    if width > 0 {
        append_fixed_digits(s, n / 10, width - 1);
        s.append(digit_str(n % 10));
        assert(final(s)@ =~= old(s)@ + fixed_digits(n as nat, width as nat));
    } else {
        assert(final(s)@ =~= old(s)@ + fixed_digits(n as nat, width as nat));
    }
}

/// Appends the decimal text of `n`.
pub(crate) fn append_decimal(s: &mut String, n: u32)
    ensures
        final(s)@ == old(s)@ + decimal(n as nat),
    decreases n,
{
    if n >= 10 {
        append_decimal(s, n / 10);
    }
    s.append(digit_str(n % 10));
    assert(final(s)@ =~= old(s)@ + decimal(n as nat));
}

/// Appends the decimal text of `n`, with a minus sign where it is negative.
pub(crate) fn append_signed_decimal(s: &mut String, n: i32)
    ensures
        final(s)@ == old(s)@ + signed_decimal(n as int),
{
    if n < 0 {
        proof { reveal_strlit("-"); }
        s.append("-");
        let m: i64 = -(n as i64);
        append_decimal(s, m as u32);
        assert(final(s)@ =~= old(s)@ + signed_decimal(n as int));
    } else {
        append_decimal(s, n as u32);
    }
}

/// Renders a date as the eight characters `YYYYMMDD`.
pub fn format_date(date: &CalendarDate) -> (r: String)
    requires
        formattable(*date),
    ensures
        r@ == date_chars(*date),
{
    let mut s = String::new();
    append_fixed_digits(&mut s, date.year as u32, 4);
    append_fixed_digits(&mut s, date.month, 2);
    append_fixed_digits(&mut s, date.day, 2);
    assert(s@ =~= date_chars(*date));
    s
}

} // verus!
