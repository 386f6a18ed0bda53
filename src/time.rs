//! Times as the API writes them: UTC ("Zulu") times such as
//! `2018-04-05T18:10:58Z`, sometimes with milliseconds.
use vstd::prelude::*;
use chrono::{Datelike, Timelike};
use crate::json::{JsonDecode, json_string_at};
use crate::text::{decimal, unsigned_text};

verus! {

/// A date and a time of day, to the second.
#[derive(PartialEq, Eq, Structural, Clone, Copy, Debug)]
pub struct Timestamp {
    pub year: i32,
    pub month: u32,
    pub day: u32,
    pub hour: u32,
    pub minute: u32,
    pub second: u32,
}

impl Timestamp {
    pub open spec fn fields(&self) -> (i32, u32, u32, u32, u32, u32) {
        (self.year, self.month, self.day, self.hour, self.minute, self.second)
    }
}

/// The fields of the time that `s` writes in the form `%Y-%m-%dT%H:%M:%SZ`,
/// if it is one.
pub uninterp spec fn zulu_fields(s: Seq<char>) -> Option<(i32, u32, u32, u32, u32, u32)>;

/// Relies on chrono::NaiveDateTime::parse_from_str with the format
/// `%Y-%m-%dT%H:%M:%SZ`; the fields are read back with chrono's accessors.
#[verifier::external_body]
fn parse_exact_zulu(s: &str) -> (r: Option<Timestamp>)
    ensures
        r is Some <==> zulu_fields(s@) is Some,
        r matches Some(t) ==> zulu_fields(s@) == Some(t.fields()),
{
    chrono::NaiveDateTime::parse_from_str(s, "%Y-%m-%dT%H:%M:%SZ").ok().map(|t| Timestamp {
        year: t.year(),
        month: t.month(),
        day: t.day(),
        hour: t.hour(),
        minute: t.minute(),
        second: t.second(),
    })
}

/// A Zulu time with its fraction of a second dropped: a text longer than 20
/// characters keeps its first 19 and ends in `Z`.
pub open spec fn zulu_normalized(s: Seq<char>) -> Seq<char> {
    if s.len() > 20 {
        s.subrange(0, 19) + "Z"@
    } else {
        s
    }
}

/// The time that a Zulu text writes, with or without milliseconds.
pub open spec fn zulu_time(s: Seq<char>) -> Option<(i32, u32, u32, u32, u32, u32)> {
    zulu_fields(zulu_normalized(s))
}

/// Reads a Zulu time such as `2018-04-05T18:10:58Z` or
/// `2018-04-05T18:10:58.836Z`; milliseconds are dropped.
pub fn parse_from_string(t: String) -> (r: Option<Timestamp>)
    ensures
        r is Some <==> zulu_time(t@) is Some,
        r matches Some(v) ==> zulu_time(t@) == Some(v.fields()),
{
    let n = t.as_str().unicode_len();
    if n > 20 {
        let head = String::from_str(t.as_str().substring_char(0, 19));
        let trimmed = head.concat("Z");
        parse_exact_zulu(trimmed.as_str())
    } else {
        parse_exact_zulu(t.as_str())
    }
}

impl JsonDecode for Timestamp {
    /// A string that holds a Zulu time.
    open spec fn decodable(text: Seq<char>, at: Seq<char>) -> bool {
        json_string_at(text, at) matches Some(s) && zulu_time(s) is Some
    }

    open spec fn decodes_to(text: Seq<char>, at: Seq<char>, v: Timestamp) -> bool {
        json_string_at(text, at) matches Some(s) && zulu_time(s) == Some(v.fields())
    }

    fn decode_at(text: &str, at: &str) -> (r: Option<Timestamp>) {
        match String::decode_at(text, at) {
            Some(s) => parse_from_string(s),
            None => None,
        }
    }
}

/// At least two digits: a value under ten gets a leading zero.
pub open spec fn two_digits(n: nat) -> Seq<char> {
    if n < 10 {
        "0"@ + decimal(n)
    } else {
        decimal(n)
    }
}

/// At least four digits, with leading zeros.
pub open spec fn four_digits(n: nat) -> Seq<char> {
    if n < 10 {
        "000"@ + decimal(n)
    } else if n < 100 {
        "00"@ + decimal(n)
    } else if n < 1000 {
        "0"@ + decimal(n)
    } else {
        decimal(n)
    }
}

/// The year as four digits; outside 0 to 9999, with its sign.
pub open spec fn year_text(y: int) -> Seq<char> {
    if 0 <= y <= 9999 {
        four_digits(y as nat)
    } else if y > 9999 {
        "+"@ + decimal(y as nat)
    } else {
        "-"@ + four_digits((-y) as nat)
    }
}

/// `YYYY-MM-DD HH:MM:SS`.
pub open spec fn timestamp_text(t: Timestamp) -> Seq<char> {
    year_text(t.year as int) + "-"@ + two_digits(t.month as nat) + "-"@ + two_digits(
        t.day as nat,
    ) + " "@ + two_digits(t.hour as nat) + ":"@ + two_digits(t.minute as nat) + ":"@
        + two_digits(t.second as nat)
}

fn two_digit_text(n: u32) -> (r: String)
    ensures
        r@ == two_digits(n as nat),
{
    let digits = unsigned_text(n as u64);
    if n < 10 {
        String::from_str("0").concat(digits.as_str())
    } else {
        digits
    }
}

fn four_digit_text(n: u64) -> (r: String)
    ensures
        r@ == four_digits(n as nat),
{
    let digits = unsigned_text(n);
    if n < 10 {
        String::from_str("000").concat(digits.as_str())
    } else if n < 100 {
        String::from_str("00").concat(digits.as_str())
    } else if n < 1000 {
        String::from_str("0").concat(digits.as_str())
    } else {
        digits
    }
}

impl Timestamp {
    /// The time written as `YYYY-MM-DD HH:MM:SS`.
    pub fn to_string(&self) -> (r: String)
        ensures
            r@ == timestamp_text(*self),
    {
        let year = if 0 <= self.year && self.year <= 9999 {
            four_digit_text(self.year as u64)
        } else if self.year > 9999 {
            String::from_str("+").concat(unsigned_text(self.year as u64).as_str())
        } else {
            let magnitude: u64 = (-(self.year as i64)) as u64;
            String::from_str("-").concat(four_digit_text(magnitude).as_str())
        };
        let s = year.concat("-");
        let s = s.concat(two_digit_text(self.month).as_str());
        let s = s.concat("-");
        let s = s.concat(two_digit_text(self.day).as_str());
        let s = s.concat(" ");
        let s = s.concat(two_digit_text(self.hour).as_str());
        let s = s.concat(":");
        let s = s.concat(two_digit_text(self.minute).as_str());
        let s = s.concat(":");
        let s = s.concat(two_digit_text(self.second).as_str());
        assert(s@ =~= timestamp_text(*self));
        s
    }
}

/// The RFC 3339 text of a UTC time with the given fields, if they name a
/// date and a time of day.
pub uninterp spec fn rfc3339_of(fields: (i32, u32, u32, u32, u32, u32)) -> Option<Seq<char>>;

/// Relies on chrono: NaiveDate::from_ymd_opt and and_hms_opt build the time
/// from its fields (none if they name no date or time of day), and
/// DateTime::<Utc>::to_rfc3339 writes it.
#[verifier::external_body]
fn rfc3339_text(t: &Timestamp) -> (r: Option<String>)
    ensures
        r is Some <==> rfc3339_of(t.fields()) is Some,
        r matches Some(s) ==> rfc3339_of(t.fields()) == Some(s@),
{
    chrono::NaiveDate::from_ymd_opt(t.year, t.month, t.day)
        .and_then(|d| d.and_hms_opt(t.hour, t.minute, t.second))
        .map(|n| n.and_utc().to_rfc3339())
}

/// A time as the API writes it in JSON: its RFC 3339 text, or an empty text
/// for no time. A timestamp whose fields name no date gives none.
pub fn time_to_json(t: Option<Timestamp>) -> (r: Option<String>)
    ensures
        t is None ==> (r matches Some(s) && s@ == Seq::<char>::empty()),
        t matches Some(v) ==> (r is Some <==> rfc3339_of(v.fields()) is Some),
        t matches Some(v) ==> (r matches Some(s) ==> rfc3339_of(v.fields()) == Some(s@)),
{
    match t {
        Some(v) => rfc3339_text(&v),
        None => Some(String::new()),
    }
}

} // verus!
