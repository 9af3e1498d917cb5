//! The certificate tool's `notAfter=...` expiration line, and the calendar
//! timestamp it denotes.
//!
//! The accepted shape is
//! `notAfter=<MON> <D> <HH>:<MM>:<SS> <YYYY> GMT`: a three-letter month
//! abbreviation in any case, a one- or two-character day field that may be
//! space-padded, two-digit hour, minute and second, a four-digit year, and
//! the literal trailing ` GMT`. The numeric fields must form a valid
//! proleptic-Gregorian calendar date; nothing is clamped or wrapped.

use vstd::prelude::*;

use crate::ascii::{
    digit_val, digit_value, is_ascii_letter, is_ascii_letter_char, is_digit, is_digit_char,
    spec_to_upper, to_upper_char,
};

verus! {

/// Why an expiration line was rejected.
#[derive(Clone, Copy, Debug, PartialEq, Eq, Structural)]
pub enum ParseError {
    /// The fetched text was empty: the certificate produced no expiration
    /// date at all.
    InvalidCertificate,
    /// The text does not have the `notAfter=...` shape.
    UnrecognizedFormat,
    /// The month abbreviation is not one of the twelve standard ones.
    UnknownMonth,
    /// The day field holds no digits.
    MalformedField,
    /// The numeric fields do not form a valid calendar date or time of day.
    InvalidCalendarDate,
}

impl ParseError {
    /// A human-readable description of the error.
    pub fn message(&self) -> (r: String)
        ensures
            *self == ParseError::InvalidCertificate ==> r@ == "invalid certificate"@,
            *self == ParseError::UnrecognizedFormat ==> r@ == "unrecognized expiration date format"@,
            *self == ParseError::UnknownMonth ==> r@ == "unknown month abbreviation"@,
            *self == ParseError::MalformedField ==> r@ == "malformed date field"@,
            *self == ParseError::InvalidCalendarDate ==> r@ == "invalid calendar date"@,
    {
        match self {
            ParseError::InvalidCertificate => String::from_str("invalid certificate"),
            ParseError::UnrecognizedFormat => String::from_str("unrecognized expiration date format"),
            ParseError::UnknownMonth => String::from_str("unknown month abbreviation"),
            ParseError::MalformedField => String::from_str("malformed date field"),
            ParseError::InvalidCalendarDate => String::from_str("invalid calendar date"),
        }
    }
}

/// A leap year of the proleptic Gregorian calendar.
pub open spec fn spec_is_leap_year(y: int) -> bool {
    (y % 4 == 0 && y % 100 != 0) || y % 400 == 0
}

/// Days in month `m` (1-based) of year `y`.
pub open spec fn spec_days_in_month(y: int, m: int) -> int {
    if m == 2 {
        if spec_is_leap_year(y) {
            29
        } else {
            28
        }
    } else if m == 4 || m == 6 || m == 9 || m == 11 {
        30
    } else {
        31
    }
}

/// A valid calendar date and time of day, with the year within the
/// four-digit range the expiration line can carry.
pub open spec fn spec_valid_date(y: int, m: int, d: int, h: int, mi: int, s: int) -> bool {
    &&& 0 <= y <= 9999
    &&& 1 <= m <= 12
    &&& 1 <= d <= spec_days_in_month(y, m)
    &&& 0 <= h <= 23
    &&& 0 <= mi <= 59
    &&& 0 <= s <= 59
}

/// A UTC calendar timestamp extracted from an expiration line.
#[derive(Clone, Copy, Debug, PartialEq, Eq, Structural)]
pub struct Timestamp {
    pub year: u32,
    pub month: u32,
    pub day: u32,
    pub hour: u32,
    pub minute: u32,
    pub second: u32,
}

/// Days from 1 January of year 1 (day 0) to 1 January of year `y`, counted
/// in the proleptic Gregorian calendar: 365 per year, plus one for each leap
/// year passed. The year is shifted by 399 so that every division is on a
/// non-negative number (146097 is the length in days of the 400-year cycle).
pub open spec fn spec_days_before_year(y: int) -> int {
    let b = y + 399;
    365 * b + b / 4 - b / 100 + b / 400 - 146097
}

/// Days from 1 January to the first of month `m` within year `y`.
pub open spec fn spec_days_before_month(y: int, m: int) -> int {
    (if m == 1 {
        0int
    } else if m == 2 {
        31
    } else if m == 3 {
        59
    } else if m == 4 {
        90
    } else if m == 5 {
        120
    } else if m == 6 {
        151
    } else if m == 7 {
        181
    } else if m == 8 {
        212
    } else if m == 9 {
        243
    } else if m == 10 {
        273
    } else if m == 11 {
        304
    } else {
        334
    }) + if m > 2 && spec_is_leap_year(y) {
        1int
    } else {
        0int
    }
}

/// Day number of a calendar date, with 1 January of year 1 as day 0.
pub open spec fn spec_day_number(y: int, m: int, d: int) -> int {
    spec_days_before_year(y) + spec_days_before_month(y, m) + (d - 1)
}

/// Whole seconds between the Unix epoch and a timestamp (negative before
/// 1970); 719162 is the day number of 1 January 1970.
pub open spec fn spec_epoch_seconds(t: Timestamp) -> int {
    (spec_day_number(t.year as int, t.month as int, t.day as int) - 719162) * 86400 + t.hour * 3600
        + t.minute * 60 + t.second
}

impl Timestamp {
    /// The fields form a valid calendar date and time of day.
    pub open spec fn wf(self) -> bool {
        spec_valid_date(
            self.year as int,
            self.month as int,
            self.day as int,
            self.hour as int,
            self.minute as int,
            self.second as int,
        )
    }

    /// Build a timestamp from its fields, rejecting (rather than clamping
    /// or wrapping) anything that is not a valid calendar date.
    pub fn new(year: u32, month: u32, day: u32, hour: u32, minute: u32, second: u32) -> (r: Option<
        Timestamp,
    >)
        ensures
            r is Some <==> spec_valid_date(
                year as int,
                month as int,
                day as int,
                hour as int,
                minute as int,
                second as int,
            ),
            r matches Some(t) ==> t == (Timestamp { year, month, day, hour, minute, second }),
    {
        if is_valid_date(year, month, day, hour, minute, second) {
            Some(Timestamp { year, month, day, hour, minute, second })
        } else {
            None
        }
    }

    /// Whole seconds between the Unix epoch and this timestamp.
    pub fn epoch_seconds(&self) -> (r: i64)
        requires
            self.wf(),
        ensures
            r as int == spec_epoch_seconds(*self),
    {
        let b: u64 = self.year as u64 + 399;
        let days_before_year: i64 = 365 * (b as i64) + (b / 4) as i64 - (b / 100) as i64 + (b
            / 400) as i64 - 146097;
        let days_before_month: i64 = (if self.month == 1 {
            0
        } else if self.month == 2 {
            31
        } else if self.month == 3 {
            59
        } else if self.month == 4 {
            90
        } else if self.month == 5 {
            120
        } else if self.month == 6 {
            151
        } else if self.month == 7 {
            181
        } else if self.month == 8 {
            212
        } else if self.month == 9 {
            243
        } else if self.month == 10 {
            273
        } else if self.month == 11 {
            304
        } else {
            334
        }) + (if self.month > 2 && is_leap_year(self.year) {
            1i64
        } else {
            0i64
        });
        let day_number: i64 = days_before_year + days_before_month + self.day as i64 - 1;
        (day_number - 719162) * 86400 + self.hour as i64 * 3600 + self.minute as i64 * 60
            + self.second as i64
    }
}

/// Exec counterpart of [`spec_is_leap_year`].
pub fn is_leap_year(y: u32) -> (r: bool)
    ensures
        r == spec_is_leap_year(y as int),
{
    (y % 4 == 0 && y % 100 != 0) || y % 400 == 0
}

/// Exec counterpart of [`spec_days_in_month`].
pub fn days_in_month(y: u32, m: u32) -> (r: u32)
    ensures
        r as int == spec_days_in_month(y as int, m as int),
{
    if m == 2 {
        if is_leap_year(y) {
            29
        } else {
            28
        }
    } else if m == 4 || m == 6 || m == 9 || m == 11 {
        30
    } else {
        31
    }
}

/// Exec counterpart of [`spec_valid_date`].
pub fn is_valid_date(y: u32, m: u32, d: u32, h: u32, mi: u32, s: u32) -> (r: bool)
    ensures
        r == spec_valid_date(y as int, m as int, d as int, h as int, mi as int, s as int),
{
    y <= 9999 && 1 <= m && m <= 12 && 1 <= d && d <= days_in_month(y, m) && h <= 23 && mi <= 59
        && s <= 59
}

/// The month abbreviation field of an expiration line.
pub open spec fn spec_month_field(s: Seq<char>) -> Seq<char> {
    s.subrange(9, 12)
}

/// Case-insensitive lookup of a three-letter month abbreviation against the
/// twelve standard ones.
pub open spec fn spec_month_num(m: Seq<char>) -> Option<u32> {
    if m.len() != 3 {
        None
    } else {
        let a = spec_to_upper(m[0]);
        let b = spec_to_upper(m[1]);
        let c = spec_to_upper(m[2]);
        if a == 'J' && b == 'A' && c == 'N' {
            Some(1u32)
        } else if a == 'F' && b == 'E' && c == 'B' {
            Some(2u32)
        } else if a == 'M' && b == 'A' && c == 'R' {
            Some(3u32)
        } else if a == 'A' && b == 'P' && c == 'R' {
            Some(4u32)
        } else if a == 'M' && b == 'A' && c == 'Y' {
            Some(5u32)
        } else if a == 'J' && b == 'U' && c == 'N' {
            Some(6u32)
        } else if a == 'J' && b == 'U' && c == 'L' {
            Some(7u32)
        } else if a == 'A' && b == 'U' && c == 'G' {
            Some(8u32)
        } else if a == 'S' && b == 'E' && c == 'P' {
            Some(9u32)
        } else if a == 'O' && b == 'C' && c == 'T' {
            Some(10u32)
        } else if a == 'N' && b == 'O' && c == 'V' {
            Some(11u32)
        } else if a == 'D' && b == 'E' && c == 'C' {
            Some(12u32)
        } else {
            None
        }
    }
}

/// The shape `notAfter=<MON> <D> <HH>:<MM>:<SS> <YYYY> GMT`: literal prefix,
/// three letters, a one- or two-character day field of digits or spaces,
/// colon-separated two-digit time fields, a four-digit year and the literal
/// ` GMT`. The day field's width is the line's length minus 31.
pub open spec fn spec_is_wellformed(s: Seq<char>) -> bool {
    let dl = s.len() - 31;
    &&& (s.len() == 32 || s.len() == 33)
    &&& s[0] == 'n' && s[1] == 'o' && s[2] == 't' && s[3] == 'A' && s[4] == 'f' && s[5] == 't'
        && s[6] == 'e' && s[7] == 'r' && s[8] == '='
    &&& is_ascii_letter(s[9]) && is_ascii_letter(s[10]) && is_ascii_letter(s[11])
    &&& s[12] == ' '
    &&& (is_digit(s[13]) || s[13] == ' ')
    &&& (dl == 2 ==> is_digit(s[14]) || s[14] == ' ')
    &&& s[13 + dl] == ' '
    &&& is_digit(s[14 + dl]) && is_digit(s[15 + dl])
    &&& s[16 + dl] == ':'
    &&& is_digit(s[17 + dl]) && is_digit(s[18 + dl])
    &&& s[19 + dl] == ':'
    &&& is_digit(s[20 + dl]) && is_digit(s[21 + dl])
    &&& s[22 + dl] == ' '
    &&& is_digit(s[23 + dl]) && is_digit(s[24 + dl]) && is_digit(s[25 + dl]) && is_digit(
        s[26 + dl],
    )
    &&& s[27 + dl] == ' '
    &&& s[28 + dl] == 'G' && s[29 + dl] == 'M' && s[30 + dl] == 'T'
}

/// The day-of-month field: its digits, ignoring space padding on either
/// side; `None` when it holds no digit at all.
pub open spec fn spec_day_val(s: Seq<char>) -> Option<int> {
    if s.len() == 32 {
        if is_digit(s[13]) {
            Some(digit_val(s[13]))
        } else {
            None
        }
    } else {
        if is_digit(s[13]) && is_digit(s[14]) {
            Some(10 * digit_val(s[13]) + digit_val(s[14]))
        } else if s[13] == ' ' && is_digit(s[14]) {
            Some(digit_val(s[14]))
        } else if is_digit(s[13]) && s[14] == ' ' {
            Some(digit_val(s[13]))
        } else {
            None
        }
    }
}

/// The value of the two digits at positions `i`, `i + 1`.
pub open spec fn spec_two_digits(s: Seq<char>, i: int) -> int {
    10 * digit_val(s[i]) + digit_val(s[i + 1])
}

pub open spec fn spec_hour_val(s: Seq<char>) -> int {
    spec_two_digits(s, s.len() - 31 + 14)
}

pub open spec fn spec_minute_val(s: Seq<char>) -> int {
    spec_two_digits(s, s.len() - 31 + 17)
}

pub open spec fn spec_second_val(s: Seq<char>) -> int {
    spec_two_digits(s, s.len() - 31 + 20)
}

pub open spec fn spec_year_val(s: Seq<char>) -> int {
    let i = s.len() - 31 + 23;
    1000 * digit_val(s[i]) + 100 * digit_val(s[i + 1]) + 10 * digit_val(s[i + 2]) + digit_val(
        s[i + 3],
    )
}

/// The month number of a line whose month field resolves, 0 otherwise.
pub open spec fn spec_month_val(s: Seq<char>) -> int {
    match spec_month_num(spec_month_field(s)) {
        Some(m) => m as int,
        None => 0,
    }
}

/// The day number of a line whose day field holds a digit, 0 otherwise.
pub open spec fn spec_day_of(s: Seq<char>) -> int {
    match spec_day_val(s) {
        Some(d) => d,
        None => 0,
    }
}

/// A line that parses successfully: well-formed shape, resolvable month, a
/// day digit present, and numeric fields that form a valid calendar date.
pub open spec fn spec_line_ok(s: Seq<char>) -> bool {
    &&& spec_is_wellformed(s)
    &&& spec_month_num(spec_month_field(s)) is Some
    &&& spec_day_val(s) is Some
    &&& spec_valid_date(
        spec_year_val(s),
        spec_month_val(s),
        spec_day_of(s),
        spec_hour_val(s),
        spec_minute_val(s),
        spec_second_val(s),
    )
}

/// The exact outcome of reading one expiration line: the shape is checked
/// first, then the month abbreviation, then the day digits, then calendar
/// validity; the first failure names the error.
pub open spec fn spec_str_to_dt(s: Seq<char>) -> Result<Timestamp, ParseError> {
    if !spec_is_wellformed(s) {
        Err(ParseError::UnrecognizedFormat)
    } else {
        match spec_month_num(spec_month_field(s)) {
            None => Err(ParseError::UnknownMonth),
            Some(m) => match spec_day_val(s) {
                None => Err(ParseError::MalformedField),
                Some(d) => {
                    let y = spec_year_val(s);
                    let h = spec_hour_val(s);
                    let mi = spec_minute_val(s);
                    let sec = spec_second_val(s);
                    if spec_valid_date(y, m as int, d, h, mi, sec) {
                        Ok(
                            Timestamp {
                                year: y as u32,
                                month: m,
                                day: d as u32,
                                hour: h as u32,
                                minute: mi as u32,
                                second: sec as u32,
                            },
                        )
                    } else {
                        Err(ParseError::InvalidCalendarDate)
                    }
                },
            },
        }
    }
}

/// The outcome of one fetched expiration text: empty text is the distinct
/// invalid-certificate condition and never reaches the date grammar.
pub open spec fn spec_parse_expiration(s: Seq<char>) -> Result<Timestamp, ParseError> {
    if s.len() == 0 {
        Err(ParseError::InvalidCertificate)
    } else {
        spec_str_to_dt(s)
    }
}

/// Resolve a three-letter month abbreviation, case-insensitively, to its
/// 1-based month number.
pub fn get_month_num(month: &str) -> (r: Option<u32>)
    ensures
        r == spec_month_num(month@),
{
    if month.unicode_len() != 3 {
        return None;
    }
    let a = to_upper_char(month.get_char(0));
    let b = to_upper_char(month.get_char(1));
    let c = to_upper_char(month.get_char(2));
    if a == 'J' && b == 'A' && c == 'N' {
        Some(1)
    } else if a == 'F' && b == 'E' && c == 'B' {
        Some(2)
    } else if a == 'M' && b == 'A' && c == 'R' {
        Some(3)
    } else if a == 'A' && b == 'P' && c == 'R' {
        Some(4)
    } else if a == 'M' && b == 'A' && c == 'Y' {
        Some(5)
    } else if a == 'J' && b == 'U' && c == 'N' {
        Some(6)
    } else if a == 'J' && b == 'U' && c == 'L' {
        Some(7)
    } else if a == 'A' && b == 'U' && c == 'G' {
        Some(8)
    } else if a == 'S' && b == 'E' && c == 'P' {
        Some(9)
    } else if a == 'O' && b == 'C' && c == 'T' {
        Some(10)
    } else if a == 'N' && b == 'O' && c == 'V' {
        Some(11)
    } else if a == 'D' && b == 'E' && c == 'C' {
        Some(12)
    } else {
        None
    }
}

/// Read one expiration line into a timestamp, or say exactly why it cannot
/// be read.
pub fn str_to_dt(dt: &str) -> (r: Result<Timestamp, ParseError>)
    ensures
        r == spec_str_to_dt(dt@),
{
    let n = dt.unicode_len();
    if !(n == 32 || n == 33) {
        return Err(ParseError::UnrecognizedFormat);
    }
    let dl: usize = n - 31;
    if !(dt.get_char(0) == 'n' && dt.get_char(1) == 'o' && dt.get_char(2) == 't' && dt.get_char(3)
        == 'A' && dt.get_char(4) == 'f' && dt.get_char(5) == 't' && dt.get_char(6) == 'e'
        && dt.get_char(7) == 'r' && dt.get_char(8) == '=') {
        return Err(ParseError::UnrecognizedFormat);
    }
    if !(is_ascii_letter_char(dt.get_char(9)) && is_ascii_letter_char(dt.get_char(10))
        && is_ascii_letter_char(dt.get_char(11))) {
        return Err(ParseError::UnrecognizedFormat);
    }
    if dt.get_char(12) != ' ' {
        return Err(ParseError::UnrecognizedFormat);
    }
    let d0 = dt.get_char(13);
    if !(is_digit_char(d0) || d0 == ' ') {
        return Err(ParseError::UnrecognizedFormat);
    }
    if dl == 2 {
        let d1 = dt.get_char(14);
        if !(is_digit_char(d1) || d1 == ' ') {
            return Err(ParseError::UnrecognizedFormat);
        }
    }
    if dt.get_char(13 + dl) != ' ' {
        return Err(ParseError::UnrecognizedFormat);
    }
    if !(is_digit_char(dt.get_char(14 + dl)) && is_digit_char(dt.get_char(15 + dl))) {
        return Err(ParseError::UnrecognizedFormat);
    }
    if dt.get_char(16 + dl) != ':' {
        return Err(ParseError::UnrecognizedFormat);
    }
    if !(is_digit_char(dt.get_char(17 + dl)) && is_digit_char(dt.get_char(18 + dl))) {
        return Err(ParseError::UnrecognizedFormat);
    }
    if dt.get_char(19 + dl) != ':' {
        return Err(ParseError::UnrecognizedFormat);
    }
    if !(is_digit_char(dt.get_char(20 + dl)) && is_digit_char(dt.get_char(21 + dl))) {
        return Err(ParseError::UnrecognizedFormat);
    }
    if dt.get_char(22 + dl) != ' ' {
        return Err(ParseError::UnrecognizedFormat);
    }
    if !(is_digit_char(dt.get_char(23 + dl)) && is_digit_char(dt.get_char(24 + dl)) && is_digit_char(
        dt.get_char(25 + dl),
    ) && is_digit_char(dt.get_char(26 + dl))) {
        return Err(ParseError::UnrecognizedFormat);
    }
    if dt.get_char(27 + dl) != ' ' {
        return Err(ParseError::UnrecognizedFormat);
    }
    if !(dt.get_char(28 + dl) == 'G' && dt.get_char(29 + dl) == 'M' && dt.get_char(30 + dl) == 'T')
    {
        return Err(ParseError::UnrecognizedFormat);
    }
    assert(spec_is_wellformed(dt@));
    let month_str = dt.substring_char(9, 12);
    let month = match get_month_num(month_str) {
        None => {
            return Err(ParseError::UnknownMonth);
        },
        Some(m) => m,
    };
    let day: u32 = if dl == 1 {
        if is_digit_char(d0) {
            digit_value(d0)
        } else {
            return Err(ParseError::MalformedField);
        }
    } else {
        let d1 = dt.get_char(14);
        if is_digit_char(d0) && is_digit_char(d1) {
            10 * digit_value(d0) + digit_value(d1)
        } else if d0 == ' ' && is_digit_char(d1) {
            digit_value(d1)
        } else if is_digit_char(d0) && d1 == ' ' {
            digit_value(d0)
        } else {
            return Err(ParseError::MalformedField);
        }
    };
    let hour: u32 = 10 * digit_value(dt.get_char(14 + dl)) + digit_value(dt.get_char(15 + dl));
    let minute: u32 = 10 * digit_value(dt.get_char(17 + dl)) + digit_value(dt.get_char(18 + dl));
    let second: u32 = 10 * digit_value(dt.get_char(20 + dl)) + digit_value(dt.get_char(21 + dl));
    let year: u32 = 1000 * digit_value(dt.get_char(23 + dl)) + 100 * digit_value(
        dt.get_char(24 + dl),
    ) + 10 * digit_value(dt.get_char(25 + dl)) + digit_value(dt.get_char(26 + dl));
    match Timestamp::new(year, month, day, hour, minute, second) {
        Some(t) => Ok(t),
        None => Err(ParseError::InvalidCalendarDate),
    }
}

/// Read one fetched expiration text: empty text is rejected as the distinct
/// invalid-certificate condition before the date grammar is consulted, and
/// a well-formed line's timestamp carries exactly the line's fields.
pub fn parse_expiration(raw: &str) -> (r: Result<Timestamp, ParseError>)
    ensures
        r == spec_parse_expiration(raw@),
        raw@.len() == 0 ==> r == Err::<Timestamp, ParseError>(ParseError::InvalidCertificate),
        spec_line_ok(raw@) ==> r is Ok,
        r matches Ok(t) ==> {
            &&& t.wf()
            &&& spec_line_ok(raw@)
            &&& t.year as int == spec_year_val(raw@)
            &&& t.month as int == spec_month_val(raw@)
            &&& t.day as int == spec_day_of(raw@)
            &&& t.hour as int == spec_hour_val(raw@)
            &&& t.minute as int == spec_minute_val(raw@)
            &&& t.second as int == spec_second_val(raw@)
        },
{
    if raw.is_empty() {
        Err(ParseError::InvalidCertificate)
    } else {
        str_to_dt(raw)
    }
}

/// Two characters with the same upper-casing are ASCII letters together.
proof fn lemma_upper_letter_pair(c1: char, c2: char)
    requires
        spec_to_upper(c1) == spec_to_upper(c2),
    ensures
        is_ascii_letter(c1) == is_ascii_letter(c2),
{
}

/// Month-case insensitivity: two expiration lines that agree everywhere
/// except in the case of the month abbreviation's letters are read to the
/// very same outcome, timestamp or error.
pub proof fn lemma_month_case_insensitive(s1: Seq<char>, s2: Seq<char>)
    requires
        s1.len() == s2.len(),
        forall|i: int| 0 <= i < s1.len() && !(9 <= i < 12) ==> s1[i] == s2[i],
        forall|i: int|
            9 <= i < 12 && i < s1.len() ==> spec_to_upper(#[trigger] s1[i]) == spec_to_upper(
                s2[i],
            ),
    ensures
        spec_str_to_dt(s1) == spec_str_to_dt(s2),
{
    if s1.len() == 32 || s1.len() == 33 {
        assert forall|i: int| 9 <= i < 12 implies is_ascii_letter(s1[i]) == is_ascii_letter(
            s2[i],
        ) by {
            lemma_upper_letter_pair(s1[i], s2[i]);
        }
        assert(spec_is_wellformed(s1) == spec_is_wellformed(s2));
        if spec_is_wellformed(s1) {
            let m1 = spec_month_field(s1);
            let m2 = spec_month_field(s2);
            assert(spec_to_upper(m1[0]) == spec_to_upper(m2[0]));
            assert(spec_to_upper(m1[1]) == spec_to_upper(m2[1]));
            assert(spec_to_upper(m1[2]) == spec_to_upper(m2[2]));
            assert(spec_month_num(m1) == spec_month_num(m2));
        }
    }
}

} // verus!
