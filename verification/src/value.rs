//! Basic value objects: business date, period, frequency and source unit.
//!
//! Only identity is expressed here: no time zone, no date arithmetic, no unit
//! conversion. Dataset IDs and guards are in `value::datasets`, records and their
//! validation in `value::record`.

use vstd::prelude::*;
use vstd::string::*;
use vstd::utf8::*;

pub mod datasets;
pub mod record;

use crate::error::{outcome, Failure, TreasuryError, TreasuryErrorKind, TreasuryResult};
use crate::text::{
    decimal, decimal_text, digit_char, signed_decimal, signed_text, two_digit_text, two_digits,
};

verus! {

broadcast use vstd::string::group_string_axioms;

/// Business date: the identity of a year, month and day; no time zone, no arithmetic.
#[derive(Debug, Clone, Copy, PartialEq, Eq, PartialOrd, Ord, Hash, Structural)]
pub struct Date {
    /// Year.
    pub year: i16,
    /// Month (1–12).
    pub month: u8,
    /// Day (checked against the month and the leap-year rule).
    pub day: u8,
}

/// Business period: the identity of a day, month, quarter, year or event.
#[non_exhaustive]
#[derive(Debug, Clone, Copy, PartialEq, Eq, Hash, Structural)]
pub enum Period {
    /// A single day.
    Day(Date),
    /// A single month.
    Month {
        /// Year.
        year: i16,
        /// Month (1–12).
        month: u8,
    },
    /// A single quarter.
    Quarter {
        /// Year.
        year: i16,
        /// Quarter (1–4).
        quarter: u8,
    },
    /// A single year.
    Year(i16),
    /// An event moment (the source gives only a date).
    Event {
        /// Date of the event.
        date: Date,
    },
}

/// Source frequency.
#[non_exhaustive]
#[derive(Debug, Clone, Copy, PartialEq, Eq, Hash, Structural)]
pub enum Frequency {
    /// Daily.
    Daily,
    /// Weekly.
    Weekly,
    /// Monthly.
    Monthly,
    /// Quarterly.
    Quarterly,
    /// Annual.
    Annual,
    /// Event driven.
    Event,
    /// Irregular.
    Irregular,
}

/// Source unit. No unit is ever inferred from a name, and none is ever converted.
#[non_exhaustive]
#[derive(Debug, Clone, Copy, PartialEq, Eq, Hash, Structural)]
pub enum Unit {
    /// The source unit is not declared (the case of DS01 / DS05).
    Unknown,
    /// Billions of US dollars (the unit of `RRPONTSYD`).
    BillionsOfUsd,
    /// Millions of US dollars (the unit of `WALCL` / `WTREGEN`).
    MillionsOfUsd,
}

/// Gregorian leap year.
pub open spec fn is_leap(year: int) -> bool {
    (year % 4 == 0 && year % 100 != 0) || year % 400 == 0
}

/// Number of days of a month; 0 for a month outside 1–12.
pub open spec fn month_length(year: int, month: int) -> int {
    if month == 1 || month == 3 || month == 5 || month == 7 || month == 8 || month == 10
        || month == 12 {
        31
    } else if month == 4 || month == 6 || month == 9 || month == 11 {
        30
    } else if month == 2 {
        if is_leap(year) {
            29
        } else {
            28
        }
    } else {
        0
    }
}

/// A date that exists in the Gregorian calendar.
pub open spec fn is_valid_date(year: int, month: int, day: int) -> bool {
    1 <= month <= 12 && 1 <= day <= month_length(year, month)
}

/// What `Date::new` gives.
pub open spec fn spec_new_date(year: i16, month: u8, day: u8) -> Result<Date, Failure> {
    if !(1 <= month <= 12) {
        Err((TreasuryErrorKind::Invalid, "月份超出 1–12："@ + decimal(month as nat)))
    } else if day == 0 || day > month_length(year as int, month as int) {
        Err(
            (
                TreasuryErrorKind::Invalid,
                "日超出该月范围："@ + signed_decimal(year as int) + "-"@ + two_digits(
                    month as nat,
                ) + " 的上限为 "@ + decimal(month_length(year as int, month as int) as nat)
                    + "，实际 "@ + decimal(day as nat),
            ),
        )
    } else {
        Ok(Date { year, month, day })
    }
}

/// Whether a byte is an ASCII decimal digit.
pub open spec fn is_digit_byte(b: u8) -> bool {
    48 <= b <= 57
}

/// Value of a fixed-width decimal field; `None` as soon as a byte is not a digit.
pub open spec fn digits_value(s: Seq<u8>) -> Option<nat>
    decreases s.len(),
{
    if s.len() == 0 {
        Some(0)
    } else {
        match digits_value(s.drop_last()) {
            None => None,
            Some(v) => if is_digit_byte(s.last()) {
                Some(v * 10 + (s.last() - 48) as nat)
            } else {
                None
            },
        }
    }
}

/// Ten to the power `n`.
pub open spec fn pow10(n: nat) -> nat
    decreases n,
{
    if n == 0 {
        1
    } else {
        10 * pow10((n - 1) as nat)
    }
}

/// What `Date::parse` gives for the text `input`: the strict form `YYYY-MM-DD`,
/// read on the UTF-8 bytes of the text.
pub open spec fn spec_parse_date(input: Seq<char>) -> Result<Date, Failure> {
    let b = encode_utf8(input);
    if b.len() != 10 || b[4] != 45 || b[7] != 45 {
        Err((TreasuryErrorKind::Invalid, "日期必须是严格的 YYYY-MM-DD（两位补零）："@ + input))
    } else {
        match digits_value(b.subrange(0, 4)) {
            None => Err((TreasuryErrorKind::Invalid, "年份部分非十进制数字："@ + input)),
            Some(y) => match digits_value(b.subrange(5, 7)) {
                None => Err((TreasuryErrorKind::Invalid, "月份部分非十进制数字："@ + input)),
                Some(m) => match digits_value(b.subrange(8, 10)) {
                    None => Err((TreasuryErrorKind::Invalid, "日部分非十进制数字："@ + input)),
                    Some(d) => spec_new_date(y as i16, m as u8, d as u8),
                },
            },
        }
    }
}

/// A decimal field of `n` digits is below ten to the `n`.
proof fn lemma_digits_bound(s: Seq<u8>)
    ensures
        digits_value(s) matches Some(v) ==> v < pow10(s.len()),
    decreases s.len(),
{
    if s.len() > 0 {
        lemma_digits_bound(s.drop_last());
    }
}

/// Parses a fixed-width decimal field; any non-digit byte fails. An empty field reads
/// as 0. A field of at most nine digits always fits in a `u32`.
pub fn literal_digits(slice: &[u8]) -> (r: Option<u32>)
    requires
        slice@.len() <= 9,
    ensures
        r matches Some(v) ==> digits_value(slice@) == Some(v as nat),
        r is None ==> digits_value(slice@) is None,
{
    let mut value: u32 = 0;
    let mut i: usize = 0;
    let n = slice.len();
    while i < n
        invariant
            n == slice@.len(),
            i <= n <= 9,
            digits_value(slice@.subrange(0, i as int)) == Some(value as nat),
            value < pow10(i as nat),
        decreases n - i,
    {
        let byte = slice[i];
        let ghost prefix = slice@.subrange(0, i as int);
        let ghost next = slice@.subrange(0, i + 1);
        assert(next.drop_last() =~= prefix);
        if !(48 <= byte && byte <= 57) {
            proof {
                lemma_none_extends(slice@, 0, i + 1, n as int);
                assert(slice@.subrange(0, n as int) =~= slice@);
            }
            return None;
        }
        proof {
            lemma_pow10_small(i as nat);
        }
        value = value * 10 + (byte - 48) as u32;
        i = i + 1;
    }
    assert(slice@.subrange(0, n as int) =~= slice@);
    Some(value)
}

/// Ten to the `n` for `n` up to 9 fits in a `u32` with room for one more digit.
proof fn lemma_pow10_small(n: nat)
    requires
        n <= 8,
    ensures
        pow10(n) <= 100_000_000,
        pow10(n + 1) == 10 * pow10(n),
{
    reveal_with_fuel(pow10, 10);
}

/// Once a prefix of a field holds a non-digit, every longer prefix does too.
proof fn lemma_none_extends(b: Seq<u8>, start: int, i: int, end: int)
    requires
        0 <= start < i <= end <= b.len(),
        digits_value(b.subrange(start, i)) is None,
    ensures
        digits_value(b.subrange(start, end)) is None,
    decreases end - i,
{
    if i < end {
        assert(b.subrange(start, i + 1).drop_last() =~= b.subrange(start, i));
        lemma_none_extends(b, start, i + 1, end);
    }
}

/// Gregorian leap year.
pub fn is_leap_year(year: i16) -> (r: bool)
    ensures
        r == is_leap(year as int),
{
    let magnitude: u32 = if year < 0 {
        (-(year as i32)) as u32
    } else {
        year as u32
    };
    proof {
        lemma_divides_negation(year as int, 4);
        lemma_divides_negation(year as int, 100);
        lemma_divides_negation(year as int, 400);
    }
    (magnitude % 4 == 0 && magnitude % 100 != 0) || magnitude % 400 == 0
}

/// A number and its negation have the same divisors.
proof fn lemma_divides_negation(y: int, k: int)
    requires
        k > 0,
    ensures
        (y % k == 0) <==> ((-y) % k == 0),
{
    if y % k == 0 {
        assert((-y) == k * (-(y / k))) by (nonlinear_arith)
            requires
                y % k == 0,
                k > 0,
        ;
        assert((-y) % k == 0) by (nonlinear_arith)
            requires
                (-y) == k * (-(y / k)),
                k > 0,
        ;
    }
    if (-y) % k == 0 {
        assert(y == k * (-((-y) / k))) by (nonlinear_arith)
            requires
                (-y) % k == 0,
                k > 0,
        ;
        assert(y % k == 0) by (nonlinear_arith)
            requires
                y == k * (-((-y) / k)),
                k > 0,
        ;
    }
}

/// Number of days of a month; 0 for a month outside 1–12.
pub fn days_in_month(year: i16, month: u8) -> (r: u8)
    ensures
        r == month_length(year as int, month as int),
{
    match month {
        1 | 3 | 5 | 7 | 8 | 10 | 12 => 31,
        4 | 6 | 9 | 11 => 30,
        2 => {
            if is_leap_year(year) {
                29
            } else {
                28
            }
        },
        _ => 0,
    }
}

impl Date {
    /// Builds a date after checking it: the month must be 1–12 and the day must exist
    /// in that month under the leap-year rule.
    ///
    /// Error: a month or day out of range gives `Invalid`.
    pub fn new(year: i16, month: u8, day: u8) -> (r: TreasuryResult<Self>)
        ensures
            outcome(r) == spec_new_date(year, month, day),
    {
        if !(1 <= month && month <= 12) {
            let mut reason = String::from_str("月份超出 1–12：");
            let m = decimal_text(month as u64);
            reason.append(m.as_str());
            return Err(TreasuryError::Invalid(reason));
        }
        let limit = days_in_month(year, month);
        if day == 0 || day > limit {
            let mut reason = String::from_str("日超出该月范围：");
            let y = signed_text(year as i64);
            reason.append(y.as_str());
            reason.append("-");
            let m = two_digit_text(month as u64);
            reason.append(m.as_str());
            reason.append(" 的上限为 ");
            let l = decimal_text(limit as u64);
            reason.append(l.as_str());
            reason.append("，实际 ");
            let d = decimal_text(day as u64);
            reason.append(d.as_str());
            return Err(TreasuryError::Invalid(reason));
        }
        Ok(Date { year, month, day })
    }

    /// Parses the strict form `YYYY-MM-DD` (month and day zero-padded to two digits).
    ///
    /// Rejects `2026-2-3`, `2026/02/03`, `2026-02-03T00:00:00` and any non-digit.
    /// Error: a malformed text or an out-of-range date gives `Invalid`.
    pub fn parse(input: &str) -> (r: TreasuryResult<Self>)
        ensures
            outcome(r) == spec_parse_date(input@),
    {
        let bytes = input.as_bytes();
        if bytes.len() != 10 || bytes[4] != 45u8 || bytes[7] != 45u8 {
            let mut reason = String::from_str("日期必须是严格的 YYYY-MM-DD（两位补零）：");
            reason.append(input);
            return Err(TreasuryError::Invalid(reason));
        }
        let year = match literal_digits(vstd::slice::slice_subrange(bytes, 0, 4)) {
            Some(v) => v,
            None => {
                let mut reason = String::from_str("年份部分非十进制数字：");
                reason.append(input);
                return Err(TreasuryError::Invalid(reason));
            },
        };
        let month = match literal_digits(vstd::slice::slice_subrange(bytes, 5, 7)) {
            Some(v) => v,
            None => {
                let mut reason = String::from_str("月份部分非十进制数字：");
                reason.append(input);
                return Err(TreasuryError::Invalid(reason));
            },
        };
        let day = match literal_digits(vstd::slice::slice_subrange(bytes, 8, 10)) {
            Some(v) => v,
            None => {
                let mut reason = String::from_str("日部分非十进制数字：");
                reason.append(input);
                return Err(TreasuryError::Invalid(reason));
            },
        };
        proof {
            lemma_digits_bound(bytes@.subrange(0, 4));
            lemma_digits_bound(bytes@.subrange(5, 7));
            lemma_digits_bound(bytes@.subrange(8, 10));
            reveal_with_fuel(pow10, 5);
        }
        Self::new(year as i16, month as u8, day as u8)
    }
}

impl Period {
    /// Parses `YYYY-MM-DD` as a single-day period.
    ///
    /// Error: as for `Date::parse`.
    pub fn parse_day(input: &str) -> (r: TreasuryResult<Self>)
        ensures
            outcome(r) == spec_parse_day(input@),
    {
        Ok(Period::Day(Date::parse(input)?))
    }
}

/// What `Period::parse_day` gives.
pub open spec fn spec_parse_day(input: Seq<char>) -> Result<Period, Failure> {
    match spec_parse_date(input) {
        Ok(d) => Ok(Period::Day(d)),
        Err(e) => Err(e),
    }
}

/// Law: every date that `Date::parse` accepts exists in the Gregorian calendar,
/// and it is the date that `Date::new` builds from its fields.
pub proof fn lemma_parsed_dates_are_valid(input: Seq<char>)
    ensures
        spec_parse_date(input) matches Ok(d) ==> is_valid_date(d.year as int, d.month as int, d.day as int)
            && spec_new_date(d.year, d.month, d.day) == Ok::<Date, Failure>(d),
{
}

/// Law: `Date::new` accepts exactly the dates of the Gregorian calendar, and gives back
/// the fields it was handed.
pub proof fn lemma_new_date_exact(year: i16, month: u8, day: u8)
    ensures
        (spec_new_date(year, month, day) is Ok) <==> is_valid_date(year as int, month as int, day as int),
        spec_new_date(year, month, day) matches Ok(d) ==> d == (Date { year, month, day }),
        spec_new_date(year, month, day) matches Err(e) ==> e.0 == TreasuryErrorKind::Invalid,
{
}

/// Law: February 29 exists exactly in leap years.
pub proof fn lemma_february_29(year: i16)
    ensures
        (spec_new_date(year, 2, 29) is Ok) <==> is_leap(year as int),
{
}

/// The text `format!("{:04}-{:02}-{:02}", year, month, day)` prints for a date whose
/// year is within 0–9999: the zero-padded form that `Date::parse` reads.
pub open spec fn iso_date_text(d: Date) -> Seq<char> {
    let y = d.year as int;
    let m = d.month as int;
    let dd = d.day as int;
    seq![
        digit_char(y / 1000),
        digit_char(y / 100 % 10),
        digit_char(y / 10 % 10),
        digit_char(y % 10),
        '-',
        digit_char(m / 10),
        digit_char(m % 10),
        '-',
        digit_char(dd / 10),
        digit_char(dd % 10),
    ]
}

/// The UTF-8 encoding of ASCII characters is their codes, one byte each.
proof fn lemma_encode_ascii(s: Seq<char>)
    requires
        forall|i: int| 0 <= i < s.len() ==> (#[trigger] s[i] as u32) < 128,
    ensures
        encode_utf8(s).len() == s.len(),
        forall|i: int| 0 <= i < s.len() ==> #[trigger] encode_utf8(s)[i] == (s[i] as u32) as u8,
    decreases s.len(),
{
    if s.len() > 0 {
        let rest = s.drop_first();
        assert forall|i: int| 0 <= i < rest.len() implies (#[trigger] rest[i] as u32) < 128 by {
            assert(rest[i] == s[i + 1]);
        }
        lemma_encode_ascii(rest);
        let v = s[0] as u32;
        assert(v < 128);
        assert(v & 0x7f == v) by (bit_vector)
            requires
                v < 128,
        ;
        let e = encode_utf8(s);
        assert(e =~= seq![(v & 0x7f) as u8] + encode_utf8(rest));
        assert forall|i: int| 0 <= i < s.len() implies #[trigger] e[i] == (s[i] as u32) as u8 by {
            if i > 0 {
                assert(e[i] == encode_utf8(rest)[i - 1]);
                assert(rest[i - 1] == s[i]);
            }
        }
    }
}

/// A two-byte field of digits reads as its two digits.
proof fn lemma_digits_value_2(s: Seq<u8>)
    requires
        s.len() == 2,
        is_digit_byte(s[0]),
        is_digit_byte(s[1]),
    ensures
        digits_value(s) == Some(((s[0] - 48) * 10 + (s[1] - 48)) as nat),
{
    assert(s.drop_last().drop_last() =~= Seq::<u8>::empty());
    assert(s.drop_last().last() == s[0]);
    reveal_with_fuel(digits_value, 3);
}

/// A four-byte field of digits reads as its four digits.
proof fn lemma_digits_value_4(s: Seq<u8>)
    requires
        s.len() == 4,
        is_digit_byte(s[0]),
        is_digit_byte(s[1]),
        is_digit_byte(s[2]),
        is_digit_byte(s[3]),
    ensures
        digits_value(s) == Some(
            ((((s[0] - 48) * 10 + (s[1] - 48)) * 10 + (s[2] - 48)) * 10 + (s[3] - 48)) as nat,
        ),
{
    let s3 = s.drop_last();
    let s2 = s3.drop_last();
    lemma_digits_value_2(s2);
    assert(s2[0] == s[0] && s2[1] == s[1]);
    assert(s3.last() == s[2] && s.last() == s[3]);
    reveal_with_fuel(digits_value, 3);
}

/// Law: `Date::parse` reads back every date of the years 0–9999 from its zero-padded
/// text `YYYY-MM-DD`, and `Period::parse_day` reads it as that single day.
pub proof fn lemma_format_date_roundtrip(d: Date)
    requires
        0 <= d.year <= 9999,
        is_valid_date(d.year as int, d.month as int, d.day as int),
    ensures
        spec_parse_date(iso_date_text(d)) == Ok::<Date, Failure>(d),
        spec_parse_day(iso_date_text(d)) == Ok::<Period, Failure>(Period::Day(d)),
{
    let t = iso_date_text(d);
    let y = d.year as int;
    let m = d.month as int;
    let dd = d.day as int;
    assert(0 <= y / 1000 < 10 && 0 <= y / 100 % 10 < 10 && 0 <= y / 10 % 10 < 10 && 0 <= y % 10 < 10);
    assert(0 <= m / 10 < 10 && 0 <= m % 10 < 10 && 0 <= dd / 10 < 10 && 0 <= dd % 10 < 10);
    assert forall|i: int| 0 <= i < t.len() implies (#[trigger] t[i] as u32) < 128 by {}
    lemma_encode_ascii(t);
    let b = encode_utf8(t);
    assert(b.len() == 10);
    assert(b[4] == 45 && b[7] == 45);
    let yb = b.subrange(0, 4);
    let mb = b.subrange(5, 7);
    let db = b.subrange(8, 10);
    assert(yb[0] == b[0] && yb[1] == b[1] && yb[2] == b[2] && yb[3] == b[3]);
    assert(mb[0] == b[5] && mb[1] == b[6] && db[0] == b[8] && db[1] == b[9]);
    lemma_digits_value_4(yb);
    lemma_digits_value_2(mb);
    lemma_digits_value_2(db);
    assert(((((y / 1000) * 10 + y / 100 % 10) * 10 + y / 10 % 10) * 10 + y % 10) == y)
        by (nonlinear_arith)
        requires
            0 <= y <= 9999,
    ;
    assert((m / 10) * 10 + m % 10 == m);
    assert((dd / 10) * 10 + dd % 10 == dd);
    assert(spec_new_date(d.year, d.month, d.day) == Ok::<Date, Failure>(d));
}

/// Every byte of a field that reads as digits is a digit.
proof fn lemma_digits_all(s: Seq<u8>)
    requires
        digits_value(s) is Some,
    ensures
        forall|k: int| 0 <= k < s.len() ==> is_digit_byte(#[trigger] s[k]),
    decreases s.len(),
{
    if s.len() > 0 {
        lemma_digits_all(s.drop_last());
        assert forall|k: int| 0 <= k < s.len() implies is_digit_byte(#[trigger] s[k]) by {
            if k < s.len() - 1 {
                assert(s[k] == s.drop_last()[k]);
            }
        }
    }
}

/// Text whose UTF-8 encoding is all ASCII bytes has one character per byte.
proof fn lemma_ascii_encoding_len(t: Seq<char>)
    requires
        forall|k: int| 0 <= k < encode_utf8(t).len() ==> (#[trigger] encode_utf8(t)[k]) < 128,
    ensures
        encode_utf8(t).len() == t.len(),
    decreases t.len(),
{
    if t.len() > 0 {
        let v = t[0] as u32;
        let rest = t.drop_first();
        let e = encode_utf8(t);
        let head = encode_scalar(v);
        assert(e == head + encode_utf8(rest));
        assert(e[0] == head[0]);
        if !has_width_1_encoding(v) {
            let x2 = ((v >> 6u32) & 0x1Fu32) as u8;
            let x3 = ((v >> 12u32) & 0x0Fu32) as u8;
            let x4 = ((v >> 18u32) & 0x7u32) as u8;
            assert((0xC0u8 | x2) >= 128 && (0xE0u8 | x3) >= 128 && (0xF0u8 | x4) >= 128) by (bit_vector);
            assert(head[0] >= 128);
            assert(false);
        }
        assert(head.len() == 1);
        assert forall|k: int| 0 <= k < encode_utf8(rest).len() implies (#[trigger] encode_utf8(rest)[k]) < 128 by {
            assert(encode_utf8(rest)[k] == e[k + 1]);
        }
        lemma_ascii_encoding_len(rest);
    }
}

/// A text that `Date::parse` accepts has exactly ten characters.
pub(crate) proof fn lemma_parsed_date_text_len(t: Seq<char>)
    requires
        spec_parse_date(t) is Ok,
    ensures
        t.len() == 10,
{
    let b = encode_utf8(t);
    lemma_digits_all(b.subrange(0, 4));
    lemma_digits_all(b.subrange(5, 7));
    lemma_digits_all(b.subrange(8, 10));
    assert forall|k: int| 0 <= k < b.len() implies (#[trigger] b[k]) < 128 by {
        if k < 4 {
            assert(b[k] == b.subrange(0, 4)[k]);
        } else if 5 <= k < 7 {
            assert(b[k] == b.subrange(5, 7)[k - 5]);
        } else if 8 <= k {
            assert(b[k] == b.subrange(8, 10)[k - 8]);
        }
    }
    lemma_ascii_encoding_len(t);
}

/// Two digit fields of one width that read as the same value are the same bytes.
proof fn lemma_digits_injective(s: Seq<u8>, t: Seq<u8>)
    requires
        s.len() == t.len(),
        digits_value(s) is Some,
        digits_value(s) == digits_value(t),
    ensures
        s == t,
    decreases s.len(),
{
    if s.len() > 0 {
        let p = digits_value(s.drop_last())->Some_0;
        let q = digits_value(t.drop_last())->Some_0;
        let c = (s.last() - 48) as nat;
        let d = (t.last() - 48) as nat;
        assert(p * 10 + c == q * 10 + d);
        assert(p == q && c == d);
        lemma_digits_injective(s.drop_last(), t.drop_last());
        assert(s =~= s.drop_last().push(s.last()));
        assert(t =~= t.drop_last().push(t.last()));
    } else {
        assert(s =~= t);
    }
}

/// Law: `Date::parse` is one to one: two texts that parse to the same date are the same
/// text (the strict form leaves no second spelling of a date).
pub proof fn lemma_parse_date_injective(a: Seq<char>, b: Seq<char>)
    requires
        spec_parse_day(a) is Ok,
        spec_parse_day(a) == spec_parse_day(b),
    ensures
        a == b,
{
    let ba = encode_utf8(a);
    let bb = encode_utf8(b);
    lemma_digits_bound(ba.subrange(0, 4));
    lemma_digits_bound(ba.subrange(5, 7));
    lemma_digits_bound(ba.subrange(8, 10));
    lemma_digits_bound(bb.subrange(0, 4));
    lemma_digits_bound(bb.subrange(5, 7));
    lemma_digits_bound(bb.subrange(8, 10));
    reveal_with_fuel(pow10, 5);
    lemma_digits_injective(ba.subrange(0, 4), bb.subrange(0, 4));
    lemma_digits_injective(ba.subrange(5, 7), bb.subrange(5, 7));
    lemma_digits_injective(ba.subrange(8, 10), bb.subrange(8, 10));
    assert(ba =~= bb) by {
        assert forall|i: int| 0 <= i < 10 implies ba[i] == bb[i] by {
            if i < 4 {
                assert(ba[i] == ba.subrange(0, 4)[i] && bb[i] == bb.subrange(0, 4)[i]);
            } else if 5 <= i < 7 {
                assert(ba[i] == ba.subrange(5, 7)[i - 5] && bb[i] == bb.subrange(5, 7)[i - 5]);
            } else if 8 <= i {
                assert(ba[i] == ba.subrange(8, 10)[i - 8] && bb[i] == bb.subrange(8, 10)[i - 8]);
            }
        }
    }
    encode_utf8_decode_utf8(a);
    encode_utf8_decode_utf8(b);
}

} // verus!
