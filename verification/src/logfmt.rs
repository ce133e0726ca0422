use vstd::prelude::*;
use vstd::string::StringExecFns;

verus! {

/// A calendar date, held as plain numbers.
#[derive(Clone, Copy, Debug, PartialEq, Eq, Structural)]
pub struct Date {
    pub year: u16,
    pub month: u8,
    pub day: u8,
}

/// The dates the formatter is written for: four-digit years and the
/// calendar's nominal ranges.
pub open spec fn date_wf(d: Date) -> bool {
    &&& d.year <= 9999
    &&& 1 <= d.month <= 12
    &&& 1 <= d.day <= 31
}

/// A local wall-clock instant with millisecond precision.
#[derive(Clone, Copy, Debug, PartialEq, Eq, Structural)]
pub struct Timestamp {
    pub date: Date,
    pub hour: u8,
    pub minute: u8,
    pub second: u8,
    pub milli: u16,
}

pub open spec fn timestamp_wf(t: Timestamp) -> bool {
    &&& date_wf(t.date)
    &&& t.hour < 24
    &&& t.minute < 60
    &&& t.second < 60
    &&& t.milli < 1000
}

/// The character of one decimal digit.
pub open spec fn digit(n: int) -> char {
    if n == 0 {
        '0'
    } else if n == 1 {
        '1'
    } else if n == 2 {
        '2'
    } else if n == 3 {
        '3'
    } else if n == 4 {
        '4'
    } else if n == 5 {
        '5'
    } else if n == 6 {
        '6'
    } else if n == 7 {
        '7'
    } else if n == 8 {
        '8'
    } else {
        '9'
    }
}

/// Two decimal digits, zero-padded.
pub open spec fn two_digits(n: int) -> Seq<char> {
    seq![digit(n / 10), digit(n % 10)]
}

/// Three decimal digits, zero-padded.
pub open spec fn three_digits(n: int) -> Seq<char> {
    seq![digit(n / 100), digit(n % 100 / 10), digit(n % 100 % 10)]
}

/// Four decimal digits, zero-padded.
pub open spec fn four_digits(n: int) -> Seq<char> {
    seq![digit(n / 1000), digit(n % 1000 / 100), digit(n % 1000 % 100 / 10), digit(
        n % 1000 % 100 % 10,
    )]
}

/// A date as "YYYY-MM-DD".
pub open spec fn date_chars(d: Date) -> Seq<char> {
    four_digits(d.year as int) + seq!['-'] + two_digits(d.month as int) + seq!['-']
        + two_digits(d.day as int)
}

/// The name of the day's log file: the fixed base with the date as its
/// suffix, so that each day's run appends to its own file.
pub open spec fn log_file_name_chars(d: Date) -> Seq<char> {
    "app.log."@ + date_chars(d)
}

/// An instant as "YYYY-MM-DDTHH:MM:SS.mmm", the form every log line's
/// timestamp is rendered in.
pub open spec fn timestamp_chars(t: Timestamp) -> Seq<char> {
    date_chars(t.date) + seq!['T'] + two_digits(t.hour as int) + seq![':'] + two_digits(
        t.minute as int,
    ) + seq![':'] + two_digits(t.second as int) + seq!['.'] + three_digits(t.milli as int)
}

/// The one-character string of one decimal digit.
fn digit_str(n: u8) -> (r: &'static str)
    requires
        n < 10,
    ensures
        r@ =~= seq![digit(n as int)],
{
    proof {
        reveal_strlit("0");
        reveal_strlit("1");
        reveal_strlit("2");
        reveal_strlit("3");
        reveal_strlit("4");
        reveal_strlit("5");
        reveal_strlit("6");
        reveal_strlit("7");
        reveal_strlit("8");
        reveal_strlit("9");
    }
    if n == 0 {
        "0"
    } else if n == 1 {
        "1"
    } else if n == 2 {
        "2"
    } else if n == 3 {
        "3"
    } else if n == 4 {
        "4"
    } else if n == 5 {
        "5"
    } else if n == 6 {
        "6"
    } else if n == 7 {
        "7"
    } else if n == 8 {
        "8"
    } else {
        "9"
    }
}

/// Two decimal digits of n, zero-padded.
pub fn two_digit_string(n: u8) -> (r: String)
    requires
        n < 100,
    ensures
        r@ == two_digits(n as int),
{
    let mut s = String::from_str(digit_str(n / 10));
    s.append(digit_str(n % 10));
    proof {
        assert(s@ =~= two_digits(n as int));
    }
    s
}

/// Three decimal digits of n, zero-padded.
pub fn three_digit_string(n: u16) -> (r: String)
    requires
        n < 1000,
    ensures
        r@ == three_digits(n as int),
{
    let rest: u16 = n % 100;
    let mut s = String::from_str(digit_str((n / 100) as u8));
    s.append(digit_str((rest / 10) as u8));
    s.append(digit_str((rest % 10) as u8));
    proof {
        assert(s@ =~= three_digits(n as int));
    }
    s
}

/// Four decimal digits of n, zero-padded.
pub fn four_digit_string(n: u16) -> (r: String)
    requires
        n < 10000,
    ensures
        r@ == four_digits(n as int),
{
    let rest: u16 = n % 1000;
    let rest2: u16 = rest % 100;
    let mut s = String::from_str(digit_str((n / 1000) as u8));
    s.append(digit_str((rest / 100) as u8));
    s.append(digit_str((rest2 / 10) as u8));
    s.append(digit_str((rest2 % 10) as u8));
    proof {
        assert(s@ =~= four_digits(n as int));
    }
    s
}

/// A date rendered as "YYYY-MM-DD".
pub fn date_string(d: &Date) -> (r: String)
    requires
        date_wf(*d),
    ensures
        r@ == date_chars(*d),
{
    proof {
        reveal_strlit("-");
    }
    let mut s = four_digit_string(d.year);
    s.append("-");
    s.append(two_digit_string(d.month).as_str());
    s.append("-");
    s.append(two_digit_string(d.day).as_str());
    proof {
        assert(s@ =~= date_chars(*d));
    }
    s
}

/// The name of the log file that the given day's records go to.
pub fn log_file_name(d: &Date) -> (r: String)
    requires
        date_wf(*d),
    ensures
        r@ == log_file_name_chars(*d),
{
    let mut s = String::from_str("app.log.");
    s.append(date_string(d).as_str());
    s
}

/// An instant rendered as "YYYY-MM-DDTHH:MM:SS.mmm".
pub fn timestamp_string(t: &Timestamp) -> (r: String)
    requires
        timestamp_wf(*t),
    ensures
        r@ == timestamp_chars(*t),
{
    proof {
        reveal_strlit("T");
        reveal_strlit(":");
        reveal_strlit(".");
    }
    let mut s = date_string(&t.date);
    s.append("T");
    s.append(two_digit_string(t.hour).as_str());
    s.append(":");
    s.append(two_digit_string(t.minute).as_str());
    s.append(":");
    s.append(two_digit_string(t.second).as_str());
    s.append(".");
    s.append(three_digit_string(t.milli).as_str());
    proof {
        assert(s@ =~= timestamp_chars(*t));
    }
    s
}

proof fn lemma_digit_injective(a: int, b: int)
    requires
        0 <= a < 10,
        0 <= b < 10,
        digit(a) == digit(b),
    ensures
        a == b,
{
}

proof fn lemma_two_digits_injective(a: int, b: int)
    requires
        0 <= a < 100,
        0 <= b < 100,
        two_digits(a) == two_digits(b),
    ensures
        a == b,
{
    assert(two_digits(a)[0] == two_digits(b)[0]);
    assert(two_digits(a)[1] == two_digits(b)[1]);
    lemma_digit_injective(a / 10, b / 10);
    lemma_digit_injective(a % 10, b % 10);
}

proof fn lemma_four_digits_injective(a: int, b: int)
    requires
        0 <= a < 10000,
        0 <= b < 10000,
        four_digits(a) == four_digits(b),
    ensures
        a == b,
{
    assert(four_digits(a)[0] == four_digits(b)[0]);
    assert(four_digits(a)[1] == four_digits(b)[1]);
    assert(four_digits(a)[2] == four_digits(b)[2]);
    assert(four_digits(a)[3] == four_digits(b)[3]);
    lemma_digit_injective(a / 1000, b / 1000);
    lemma_digit_injective(a % 1000 / 100, b % 1000 / 100);
    lemma_digit_injective(a % 1000 % 100 / 10, b % 1000 % 100 / 10);
    lemma_digit_injective(a % 1000 % 100 % 10, b % 1000 % 100 % 10);
}

proof fn lemma_date_chars_injective(d1: Date, d2: Date)
    requires
        date_wf(d1),
        date_wf(d2),
        date_chars(d1) == date_chars(d2),
    ensures
        d1 == d2,
{
    let a = date_chars(d1);
    let b = date_chars(d2);
    assert(a.subrange(0, 4) =~= four_digits(d1.year as int));
    assert(b.subrange(0, 4) =~= four_digits(d2.year as int));
    assert(a.subrange(5, 7) =~= two_digits(d1.month as int));
    assert(b.subrange(5, 7) =~= two_digits(d2.month as int));
    assert(a.subrange(8, 10) =~= two_digits(d1.day as int));
    assert(b.subrange(8, 10) =~= two_digits(d2.day as int));
    lemma_four_digits_injective(d1.year as int, d2.year as int);
    lemma_two_digits_injective(d1.month as int, d2.month as int);
    lemma_two_digits_injective(d1.day as int, d2.day as int);
}

/// Distinct days name distinct log files: a process started after
/// midnight opens a fresh dated file rather than appending to the
/// previous day's.
pub proof fn lemma_log_file_names_differ(d1: Date, d2: Date)
    requires
        date_wf(d1),
        date_wf(d2),
        d1 != d2,
    ensures
        log_file_name_chars(d1) != log_file_name_chars(d2),
{
    if log_file_name_chars(d1) == log_file_name_chars(d2) {
        let p = "app.log."@;
        let n1 = log_file_name_chars(d1);
        let n2 = log_file_name_chars(d2);
        assert(date_chars(d1) =~= n1.subrange(p.len() as int, n1.len() as int));
        assert(date_chars(d2) =~= n2.subrange(p.len() as int, n2.len() as int));
        lemma_date_chars_injective(d1, d2);
    }
}

} // verus!
