use chrono::Datelike;
use vstd::arithmetic::power::pow;
use vstd::prelude::*;

use crate::text::{decimal, digit_char, digit_str, push_decimal};

verus! {

/// A field value shown in a table cell.
pub trait ToRowValue {
    /// The text of the cell.
    spec fn row_text(&self) -> Seq<char>;

    fn to_row_value(&self) -> (r: String)
        ensures
            r@ == self.row_text(),
    ;
}

/// A number with two decimal places, held as a whole count of hundredths.
#[derive(Clone, Copy, Debug, PartialEq, Eq, Structural)]
pub struct Fixed2 {
    pub hundredths: i64,
}

/// A percentage with two decimal places, held as a whole count of
/// hundredths of a percent.
#[derive(Clone, Copy, Debug, PartialEq, Eq, Structural)]
pub struct Percent {
    pub hundredths: i64,
}

/// A calendar day of the proleptic Gregorian calendar, in years 0 to 9999.
#[derive(Clone, Copy, Debug, PartialEq, Eq, Structural)]
pub struct Date {
    year: i32,
    month: u32,
    day: u32,
}

/// A 128-bit UUID, most significant byte first.
#[derive(Clone, Copy, Debug, PartialEq, Eq, Structural)]
pub struct UuidValue {
    pub value: u128,
}

pub open spec fn abs_int(v: int) -> nat {
    if v < 0 {
        (-v) as nat
    } else {
        v as nat
    }
}

/// `v` hundredths written with two decimal places, a minus sign first when
/// negative.
pub open spec fn fixed2_text(v: int) -> Seq<char> {
    let a = abs_int(v);
    let sign = if v < 0 {
        seq!['-']
    } else {
        Seq::<char>::empty()
    };
    sign + decimal(a / 100) + seq!['.', digit_char((a / 10) % 10), digit_char(a % 10)]
}

fn push_fixed2(out: &mut String, v: i64)
    ensures
        final(out)@ == old(out)@ + fixed2_text(v as int),
{
    let a: u64 = if v < 0 {
        (-(v as i128)) as u64
    } else {
        v as u64
    };
    assert(a as nat == abs_int(v as int));
    let ghost start = out@;
    if v < 0 {
        out.append("-");
        proof {
            reveal_strlit("-");
        }
    }
    let ghost signed = out@;
    push_decimal(out, a / 100);
    out.append(".");
    out.append(digit_str((a / 10) % 10));
    out.append(digit_str(a % 10));
    proof {
        reveal_strlit(".");
        if v < 0 {
            assert(signed =~= start + seq!['-']);
        } else {
            assert(signed =~= start);
        }
        assert(out@ =~= old(out)@ + fixed2_text(v as int));
    }
}

impl ToRowValue for Fixed2 {
    open spec fn row_text(&self) -> Seq<char> {
        fixed2_text(self.hundredths as int)
    }

    fn to_row_value(&self) -> (r: String) {
        let mut out = String::new();
        push_fixed2(&mut out, self.hundredths);
        assert(out@ =~= self.row_text());
        out
    }
}

impl ToRowValue for Percent {
    open spec fn row_text(&self) -> Seq<char> {
        fixed2_text(self.hundredths as int).push('%')
    }

    fn to_row_value(&self) -> (r: String) {
        let mut out = String::new();
        push_fixed2(&mut out, self.hundredths);
        out.append("%");
        proof {
            reveal_strlit("%");
        }
        assert(out@ =~= self.row_text());
        out
    }
}

impl ToRowValue for u32 {
    open spec fn row_text(&self) -> Seq<char> {
        decimal(*self as nat)
    }

    fn to_row_value(&self) -> (r: String) {
        let mut out = String::new();
        push_decimal(&mut out, *self as u64);
        assert(out@ =~= self.row_text());
        out
    }
}

impl ToRowValue for String {
    open spec fn row_text(&self) -> Seq<char> {
        self@
    }

    fn to_row_value(&self) -> (r: String) {
        self.clone()
    }
}

impl<T: ToRowValue> ToRowValue for Option<T> {
    /// An absent value shows as `-`.
    open spec fn row_text(&self) -> Seq<char> {
        match self {
            Some(v) => v.row_text(),
            None => seq!['-'],
        }
    }

    fn to_row_value(&self) -> (r: String) {
        match self {
            Some(v) => v.to_row_value(),
            None => {
                proof {
                    reveal_strlit("-");
                }
                String::from_str("-")
            },
        }
    }
}

pub open spec fn is_leap_year(y: int) -> bool {
    (y % 4 == 0 && y % 100 != 0) || y % 400 == 0
}

pub open spec fn days_in_month(y: int, m: int) -> int {
    if m == 2 {
        if is_leap_year(y) {
            29
        } else {
            28
        }
    } else if m == 4 || m == 6 || m == 9 || m == 11 {
        30
    } else {
        31
    }
}

/// `year`-`month`-`day` names a day of the calendar, in years 0 to 9999.
pub open spec fn valid_date(year: int, month: int, day: int) -> bool {
    &&& 0 <= year <= 9999
    &&& 1 <= month <= 12
    &&& 1 <= day <= days_in_month(year, month)
}

/// Two decimal digits of `n` (below 100), zero first when needed.
pub open spec fn two_digits(n: nat) -> Seq<char> {
    seq![digit_char(n / 10), digit_char(n % 10)]
}

/// Four decimal digits of `n` (below 10000), zeros first when needed.
pub open spec fn four_digits(n: nat) -> Seq<char> {
    seq![digit_char(n / 1000), digit_char((n / 100) % 10), digit_char((n / 10) % 10), digit_char(n % 10)]
}

/// The date written `MM.DD.YYYY`.
pub open spec fn date_text(year: int, month: int, day: int) -> Seq<char> {
    two_digits(month as nat) + seq!['.'] + two_digits(day as nat) + seq!['.'] + four_digits(
        year as nat,
    )
}

/// Relies on chrono's `NaiveDate::from_ymd_opt`, which accepts every valid
/// calendar day in years 0 to 9999, and `NaiveDate::format` with
/// `%m.%d.%Y`, which writes month and day as two digits and a year in that
/// range as four, zero-padded.
#[verifier::external_body]
fn format_mdy(year: i32, month: u32, day: u32) -> (r: String)
    requires
        valid_date(year as int, month as int, day as int),
    ensures
        r@ == date_text(year as int, month as int, day as int),
{
    chrono::NaiveDate::from_ymd_opt(year, month, day).unwrap().format("%m.%d.%Y").to_string()
}

impl View for Date {
    type V = (int, int, int);

    /// Year, month and day.
    closed spec fn view(&self) -> (int, int, int) {
        (self.year as int, self.month as int, self.day as int)
    }
}

impl Date {
    #[verifier::type_invariant]
    spec fn wf(self) -> bool {
        valid_date(self.year as int, self.month as int, self.day as int)
    }

    /// The day `year`-`month`-`day`, when it exists and its year is 0 to 9999.
    pub fn new(year: i32, month: u32, day: u32) -> (r: Option<Date>)
        ensures
            r is Some <==> valid_date(year as int, month as int, day as int),
            r matches Some(d) ==> d@ == (year as int, month as int, day as int),
    {
        if year < 0 || year > 9999 || month < 1 || month > 12 || day < 1 {
            return None;
        }
        let leap = (year % 4 == 0 && year % 100 != 0) || year % 400 == 0;
        let days: u32 = if month == 2 {
            if leap {
                29
            } else {
                28
            }
        } else if month == 4 || month == 6 || month == 9 || month == 11 {
            30
        } else {
            31
        };
        if day > days {
            None
        } else {
            Some(Date { year, month, day })
        }
    }

    pub fn year(&self) -> (r: i32)
        ensures
            r as int == self@.0,
    {
        self.year
    }

    pub fn month(&self) -> (r: u32)
        ensures
            r as int == self@.1,
    {
        self.month
    }

    pub fn day(&self) -> (r: u32)
        ensures
            r as int == self@.2,
    {
        self.day
    }
}

impl ToRowValue for Date {
    /// The date written `MM.DD.YYYY`.
    open spec fn row_text(&self) -> Seq<char> {
        date_text(self@.0, self@.1, self@.2)
    }

    fn to_row_value(&self) -> (r: String) {
        proof {
            use_type_invariant(self);
        }
        format_mdy(self.year, self.month, self.day)
    }
}

/// Why a text was not taken as a date.
#[derive(Clone, Copy, Debug, PartialEq, Eq, Structural)]
pub enum DateError {
    /// The text is not a date written `MM.DD.YYYY`.
    Invalid,
    /// The date lies outside years 0 to 9999.
    OutOfRange,
}

#[verifier::external_type_specification]
#[verifier::external_body]
pub struct ExParseError(chrono::ParseError);

/// What chrono reads from a text with the format `%m.%d.%Y`: year, month and
/// day, or `None` when it refuses the text.
pub uninterp spec fn parsed_mdy(s: Seq<char>) -> Option<(int, int, int)>;

/// Relies on chrono's `NaiveDate::parse_from_str` with `%m.%d.%Y`: its
/// result depends on the text alone.
#[verifier::external_body]
fn parse_mdy(s: &str) -> (r: Result<(i32, u32, u32), chrono::ParseError>)
    ensures
        r is Ok <==> parsed_mdy(s@) is Some,
        r matches Ok(t) ==> parsed_mdy(s@) == Some((t.0 as int, t.1 as int, t.2 as int)),
{
    match chrono::NaiveDate::parse_from_str(s, "%m.%d.%Y") {
        Ok(d) => Ok((d.year(), d.month(), d.day())),
        Err(e) => Err(e),
    }
}

/// Reads a date written `MM.DD.YYYY`.
pub fn parse_naive_date(s: &str) -> (r: Result<Date, DateError>)
    ensures
        r matches Ok(d) ==> parsed_mdy(s@) == Some(d@),
        r == Err::<Date, DateError>(DateError::Invalid) <==> parsed_mdy(s@) is None,
        r == Err::<Date, DateError>(DateError::OutOfRange) <==> (parsed_mdy(s@) matches Some(t)
            && !valid_date(t.0, t.1, t.2)),
{
    match parse_mdy(s) {
        Ok((y, m, d)) => match Date::new(y, m, d) {
            Some(date) => Ok(date),
            None => Err(DateError::OutOfRange),
        },
        Err(_) => Err(DateError::Invalid),
    }
}

/// The hexadecimal digit of `n` (below 16), in small letters.
pub open spec fn hex_digit(n: nat) -> char {
    seq!['0', '1', '2', '3', '4', '5', '6', '7', '8', '9', 'a', 'b', 'c', 'd', 'e', 'f'][n as int]
}

/// The `k`-th of the 32 hexadecimal digits of `v`, counted from the most
/// significant.
pub open spec fn uuid_nibble(v: nat, k: int) -> nat {
    ((v as int / pow(16, (31 - k) as nat)) % 16) as nat
}

/// How many hyphens the hyphenated form holds before position `p`.
pub open spec fn hyphens_before(p: int) -> int {
    if p < 8 {
        0
    } else if p < 13 {
        1
    } else if p < 18 {
        2
    } else if p < 23 {
        3
    } else {
        4
    }
}

/// The hyphenated form of a UUID: 32 small hexadecimal digits in groups of
/// 8, 4, 4, 4 and 12, joined by `-`.
pub open spec fn uuid_text(v: nat) -> Seq<char> {
    Seq::new(
        36,
        |p: int|
            if p == 8 || p == 13 || p == 18 || p == 23 {
                '-'
            } else {
                hex_digit(uuid_nibble(v, p - hyphens_before(p)))
            },
    )
}

/// Relies on uuid's `Uuid::from_u128`, which takes the value most
/// significant byte first, and its `Display`, which writes the hyphenated
/// form in small letters.
#[verifier::external_body]
fn format_uuid(v: u128) -> (r: String)
    ensures
        r@ == uuid_text(v as nat),
{
    uuid::Uuid::from_u128(v).to_string()
}

impl ToRowValue for UuidValue {
    open spec fn row_text(&self) -> Seq<char> {
        uuid_text(self.value as nat)
    }

    fn to_row_value(&self) -> (r: String) {
        format_uuid(self.value)
    }
}

} // verus!
