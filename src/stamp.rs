use vstd::prelude::*;
use vstd::string::StrSliceExecFns;
use vstd::string::StringExecFns;

verus! {

/// A local civil time with one-second resolution, as it appears in file names
/// and in record timestamps.
#[derive(Clone, Copy, Debug, PartialEq, Eq, Structural)]
pub struct Stamp {
    pub year: u32,
    pub month: u32,
    pub day: u32,
    pub hour: u32,
    pub minute: u32,
    pub second: u32,
}

/// A leap year of the Gregorian calendar.
pub open spec fn is_leap_year(year: int) -> bool {
    (year % 4 == 0 && year % 100 != 0) || year % 400 == 0
}

/// The number of days in a month (1 to 12) of a year.
pub open spec fn days_in_month(year: int, month: int) -> int {
    if month == 2 {
        if is_leap_year(year) {
            29
        } else {
            28
        }
    } else if month == 4 || month == 6 || month == 9 || month == 11 {
        30
    } else {
        31
    }
}

/// The number of days in a month (1 to 12) of a year.
pub fn month_days(year: u32, month: u32) -> (r: u32)
    ensures
        r == days_in_month(year as int, month as int),
{
    if month == 2 {
        if (year % 4 == 0 && year % 100 != 0) || year % 400 == 0 {
            29
        } else {
            28
        }
    } else if month == 4 || month == 6 || month == 9 || month == 11 {
        30
    } else {
        31
    }
}

impl Stamp {
    /// Every field lies in its calendar range and the year has four digits.
    pub open spec fn wf(&self) -> bool {
        &&& self.year <= 9999
        &&& 1 <= self.month <= 12
        &&& 1 <= self.day <= days_in_month(self.year as int, self.month as int)
        &&& self.hour < 24
        &&& self.minute < 60
        &&& self.second < 60
    }

    /// Builds a stamp from calendar fields, or `None` where one is out of range.
    pub fn from_fields(year: i32, month: u32, day: u32, hour: u32, minute: u32, second: u32) -> (r:
        Option<Stamp>)
        ensures
            r is Some <==> (0 <= year <= 9999 && 1 <= month <= 12 && 1 <= day <= days_in_month(
                year as int,
                month as int,
            ) && hour < 24
                && minute < 60 && second < 60),
            r matches Some(s) ==> s.wf() && s.year == year as u32 && s.month == month && s.day
                == day && s.hour == hour && s.minute == minute && s.second == second,
    {
        if 0 <= year && year <= 9999 && 1 <= month && month <= 12 && 1 <= day && day
            <= month_days(year as u32, month) && hour < 24 && minute < 60 && second < 60 {
            Some(Stamp { year: year as u32, month, day, hour, minute, second })
        } else {
            None
        }
    }

    /// Whether `self` comes strictly before `other` in calendar order.
    pub fn is_before(&self, other: &Stamp) -> (r: bool)
        ensures
            r == stamp_before(*self, *other),
    {
        if self.year != other.year {
            self.year < other.year
        } else if self.month != other.month {
            self.month < other.month
        } else if self.day != other.day {
            self.day < other.day
        } else if self.hour != other.hour {
            self.hour < other.hour
        } else if self.minute != other.minute {
            self.minute < other.minute
        } else {
            self.second < other.second
        }
    }
}

/// Calendar order: the first differing field, from the year down, decides.
pub open spec fn stamp_before(a: Stamp, b: Stamp) -> bool {
    if a.year != b.year {
        a.year < b.year
    } else if a.month != b.month {
        a.month < b.month
    } else if a.day != b.day {
        a.day < b.day
    } else if a.hour != b.hour {
        a.hour < b.hour
    } else if a.minute != b.minute {
        a.minute < b.minute
    } else {
        a.second < b.second
    }
}

/// The decimal digit character for `d` in `0..10`.
pub open spec fn digit_char(d: int) -> char {
    if d == 0 {
        '0'
    } else if d == 1 {
        '1'
    } else if d == 2 {
        '2'
    } else if d == 3 {
        '3'
    } else if d == 4 {
        '4'
    } else if d == 5 {
        '5'
    } else if d == 6 {
        '6'
    } else if d == 7 {
        '7'
    } else if d == 8 {
        '8'
    } else {
        '9'
    }
}

/// The value of a decimal digit character.
pub open spec fn digit_value(c: char) -> Option<int> {
    if '0' <= c && c <= '9' {
        Some(c as int - '0' as int)
    } else {
        None
    }
}

/// `n` in two digits, zero-padded.
pub open spec fn two_digits(n: int) -> Seq<char> {
    seq![digit_char(n / 10), digit_char(n % 10)]
}

/// `n` in four digits, zero-padded.
pub open spec fn four_digits(n: int) -> Seq<char> {
    seq![digit_char(n / 1000), digit_char(n / 100 % 10), digit_char(n / 10 % 10), digit_char(n % 10)]
}

/// The nineteen characters of a stamp, with the given separators inside the
/// date, between date and time, and inside the time.
pub open spec fn stamp_chars(s: Stamp, date_sep: char, mid: char, time_sep: char) -> Seq<char> {
    let y = s.year as int;
    seq![
        digit_char(y / 1000), digit_char(y / 100 % 10), digit_char(y / 10 % 10), digit_char(y % 10),
        date_sep,
        digit_char(s.month as int / 10), digit_char(s.month as int % 10),
        date_sep,
        digit_char(s.day as int / 10), digit_char(s.day as int % 10),
        mid,
        digit_char(s.hour as int / 10), digit_char(s.hour as int % 10),
        time_sep,
        digit_char(s.minute as int / 10), digit_char(s.minute as int % 10),
        time_sep,
        digit_char(s.second as int / 10), digit_char(s.second as int % 10),
    ]
}

/// `YYYY-MM-DD_HH-MM-SS`, the form used in file names.
pub open spec fn file_stamp_text(s: Stamp) -> Seq<char> {
    stamp_chars(s, '-', '_', '-')
}

/// `YYYY-MM-DD HH:MM:SS`, the form used in records.
pub open spec fn display_stamp_text(s: Stamp) -> Seq<char> {
    stamp_chars(s, '-', ' ', ':')
}

/// The number written by the two characters of `t` at `i` and `i + 1`.
pub open spec fn two_at(t: Seq<char>, i: int) -> Option<int> {
    match (digit_value(t[i]), digit_value(t[i + 1])) {
        (Some(a), Some(b)) => Some(a * 10 + b),
        _ => None,
    }
}

/// The number written by the four characters of `t` from `i`.
pub open spec fn four_at(t: Seq<char>, i: int) -> Option<int> {
    match (two_at(t, i), two_at(t, i + 2)) {
        (Some(a), Some(b)) => Some(a * 100 + b),
        _ => None,
    }
}

/// The stamp that a text starts with in the file-name form, if it starts with a
/// valid one.
pub open spec fn parse_stamp_spec(t: Seq<char>) -> Option<Stamp> {
    if t.len() < 19 || t[4] != '-' || t[7] != '-' || t[10] != '_' || t[13] != '-' || t[16]
        != '-' {
        None
    } else {
        match (four_at(t, 0), two_at(t, 5), two_at(t, 8), two_at(t, 11), two_at(t, 14), two_at(t, 17)) {
            (Some(y), Some(mo), Some(d), Some(h), Some(mi), Some(s)) => {
                let st = Stamp {
                    year: y as u32,
                    month: mo as u32,
                    day: d as u32,
                    hour: h as u32,
                    minute: mi as u32,
                    second: s as u32,
                };
                if st.wf() {
                    Some(st)
                } else {
                    None
                }
            },
            _ => None,
        }
    }
}

proof fn lemma_digit_round_trip(d: int)
    requires
        0 <= d < 10,
    ensures
        digit_value(digit_char(d)) == Some(d),
{
}

fn digit_str(d: u32) -> (r: &'static str)
    requires
        d < 10,
    ensures
        r@ == seq![digit_char(d as int)],
{
    if d == 0 {
        proof { reveal_strlit("0"); }
        "0"
    } else if d == 1 {
        proof { reveal_strlit("1"); }
        "1"
    } else if d == 2 {
        proof { reveal_strlit("2"); }
        "2"
    } else if d == 3 {
        proof { reveal_strlit("3"); }
        "3"
    } else if d == 4 {
        proof { reveal_strlit("4"); }
        "4"
    } else if d == 5 {
        proof { reveal_strlit("5"); }
        "5"
    } else if d == 6 {
        proof { reveal_strlit("6"); }
        "6"
    } else if d == 7 {
        proof { reveal_strlit("7"); }
        "7"
    } else if d == 8 {
        proof { reveal_strlit("8"); }
        "8"
    } else {
        proof { reveal_strlit("9"); }
        "9"
    }
}

/// Appends `n` in two digits, zero-padded.
pub(crate) fn push_two(out: &mut String, n: u32)
    requires
        n < 100,
    ensures
        final(out)@ == old(out)@ + two_digits(n as int),
{
    out.append(digit_str(n / 10));
    out.append(digit_str(n % 10));
}

fn push_four(out: &mut String, n: u32)
    requires
        n < 10000,
    ensures
        final(out)@ == old(out)@ + four_digits(n as int),
{
    out.append(digit_str(n / 1000));
    out.append(digit_str(n / 100 % 10));
    out.append(digit_str(n / 10 % 10));
    out.append(digit_str(n % 10));
}

fn push_stamp(out: &mut String, s: &Stamp, date_sep: &str, time_sep: &str, mid: &str)
    requires
        s.wf(),
    ensures
        final(out)@ == old(out)@ + four_digits(s.year as int) + date_sep@ + two_digits(
            s.month as int,
        ) + date_sep@ + two_digits(s.day as int) + mid@ + two_digits(s.hour as int) + time_sep@
            + two_digits(s.minute as int) + time_sep@ + two_digits(s.second as int),
{
    push_four(out, s.year);
    out.append(date_sep);
    push_two(out, s.month);
    out.append(date_sep);
    push_two(out, s.day);
    out.append(mid);
    push_two(out, s.hour);
    out.append(time_sep);
    push_two(out, s.minute);
    out.append(time_sep);
    push_two(out, s.second);
}

impl Stamp {
    /// `YYYY-MM-DD_HH-MM-SS`, as file names carry it.
    pub fn file_text(&self) -> (r: String)
        requires
            self.wf(),
        ensures
            r@ == file_stamp_text(*self),
    {
        let mut out = String::new();
        proof {
            reveal_strlit("-");
            reveal_strlit("_");
        }
        push_stamp(&mut out, self, "-", "-", "_");
        assert(out@ =~= file_stamp_text(*self));
        out
    }

    /// `YYYY-MM-DD HH:MM:SS`, as records carry it.
    pub fn display_text(&self) -> (r: String)
        requires
            self.wf(),
        ensures
            r@ == display_stamp_text(*self),
    {
        let mut out = String::new();
        proof {
            reveal_strlit("-");
            reveal_strlit(":");
            reveal_strlit(" ");
        }
        push_stamp(&mut out, self, "-", ":", " ");
        assert(out@ =~= display_stamp_text(*self));
        out
    }
}

fn digit_at(t: &str, i: usize) -> (r: Option<u32>)
    requires
        i < t@.len(),
    ensures
        r matches Some(v) ==> v < 10 && digit_value(t@[i as int]) == Some(v as int),
        r is None ==> digit_value(t@[i as int]) is None,
{
    let c = t.get_char(i);
    if '0' <= c && c <= '9' {
        Some(c as u32 - '0' as u32)
    } else {
        None
    }
}

fn two_digits_at(t: &str, i: usize) -> (r: Option<u32>)
    requires
        i + 1 < t@.len(),
        i < 20,
    ensures
        r matches Some(v) ==> v < 100 && two_at(t@, i as int) == Some(v as int),
        r is None ==> two_at(t@, i as int) is None,
{
    match (digit_at(t, i), digit_at(t, i + 1)) {
        (Some(a), Some(b)) => Some(a * 10 + b),
        _ => None,
    }
}

fn four_digits_at(t: &str, i: usize) -> (r: Option<u32>)
    requires
        i + 3 < t@.len(),
        i < 16,
    ensures
        r matches Some(v) ==> v < 10000 && four_at(t@, i as int) == Some(v as int),
        r is None ==> four_at(t@, i as int) is None,
{
    match (two_digits_at(t, i), two_digits_at(t, i + 2)) {
        (Some(a), Some(b)) => Some(a * 100 + b),
        _ => None,
    }
}

/// Reads the `YYYY-MM-DD_HH-MM-SS` stamp that a file name starts with; `None`
/// where the name does not start with a valid one.
pub fn parse_stamp_prefix(name: &str) -> (r: Option<Stamp>)
    ensures
        r == parse_stamp_spec(name@),
{
    let n = name.unicode_len();
    if n < 19 {
        return None;
    }
    if name.get_char(4) != '-' || name.get_char(7) != '-' || name.get_char(10) != '_'
        || name.get_char(13) != '-' || name.get_char(16) != '-' {
        return None;
    }
    let y = four_digits_at(name, 0);
    let mo = two_digits_at(name, 5);
    let d = two_digits_at(name, 8);
    let h = two_digits_at(name, 11);
    let mi = two_digits_at(name, 14);
    let s = two_digits_at(name, 17);
    match (y, mo, d, h, mi, s) {
        (Some(y), Some(mo), Some(d), Some(h), Some(mi), Some(s)) => {
            let st = Stamp { year: y, month: mo, day: d, hour: h, minute: mi, second: s };
            if st.year <= 9999 && 1 <= st.month && st.month <= 12 && 1 <= st.day && st.day
                <= month_days(st.year, st.month)
                && st.hour < 24 && st.minute < 60 && st.second < 60 {
                Some(st)
            } else {
                None
            }
        },
        _ => None,
    }
}

proof fn lemma_two_digits(n: int)
    requires
        0 <= n < 100,
    ensures
        digit_value(digit_char(n / 10)) == Some(n / 10),
        digit_value(digit_char(n % 10)) == Some(n % 10),
        (n / 10) * 10 + n % 10 == n,
{
    lemma_digit_round_trip(n / 10);
    lemma_digit_round_trip(n % 10);
}

proof fn lemma_four_digits(y: int)
    requires
        0 <= y <= 9999,
    ensures
        digit_value(digit_char(y / 1000)) == Some(y / 1000),
        digit_value(digit_char(y / 100 % 10)) == Some(y / 100 % 10),
        digit_value(digit_char(y / 10 % 10)) == Some(y / 10 % 10),
        digit_value(digit_char(y % 10)) == Some(y % 10),
        ((y / 1000) * 10 + y / 100 % 10) * 100 + ((y / 10 % 10) * 10 + y % 10) == y,
{
    assert(0 <= y / 1000 < 10);
    lemma_digit_round_trip(y / 1000);
    lemma_digit_round_trip(y / 100 % 10);
    lemma_digit_round_trip(y / 10 % 10);
    lemma_digit_round_trip(y % 10);
    assert((y / 1000) * 10 + y / 100 % 10 == y / 100) by (nonlinear_arith)
        requires
            0 <= y <= 9999,
    ;
    assert((y / 10 % 10) * 10 + y % 10 == y % 100) by (nonlinear_arith)
        requires
            0 <= y <= 9999,
    ;
    assert((y / 100) * 100 + y % 100 == y) by (nonlinear_arith);
}

/// A text that starts with a valid stamp in the file-name form reads back as that
/// same stamp, whatever follows it.
pub proof fn lemma_stamp_round_trip(s: Stamp, rest: Seq<char>)
    requires
        s.wf(),
    ensures
        parse_stamp_spec(file_stamp_text(s) + rest) == Some(s),
{
    let f = file_stamp_text(s);
    let t = f + rest;
    assert forall|k: int| 0 <= k < 19 implies t[k] == f[k] by {}
    lemma_four_digits(s.year as int);
    lemma_two_digits(s.month as int);
    lemma_two_digits(s.day as int);
    lemma_two_digits(s.hour as int);
    lemma_two_digits(s.minute as int);
    lemma_two_digits(s.second as int);
    assert(four_at(t, 0) == Some(s.year as int));
    assert(two_at(t, 5) == Some(s.month as int));
    assert(two_at(t, 8) == Some(s.day as int));
    assert(two_at(t, 11) == Some(s.hour as int));
    assert(two_at(t, 14) == Some(s.minute as int));
    assert(two_at(t, 17) == Some(s.second as int));
}

} // verus!
