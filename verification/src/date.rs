//! Permissive feed date parsing.
//!
//! Feed publishers use a decade's worth of date conventions. `parse_date`
//! tries a fixed cascade of formats and returns `None` when none of them
//! matches; it never fails. The individual format grammars are chrono's;
//! each is called through a trusted wrapper whose result is named by an
//! uninterpreted function, and the cascade itself is verified.

use vstd::prelude::*;
use vstd::string::*;
use chrono::{Datelike, Timelike};

use crate::strutil::{
    dec_digits, push_decimal, replace_all, replace_spec, to_chars, trim, trim_spec,
};

verus! {

/// A calendar timestamp in UTC, at second resolution.
///
/// This is the canonical form every feed date is normalised into.
#[derive(Debug, Clone, Copy, PartialEq, Eq, Structural)]
pub struct UtcTime {
    pub year: i32,
    pub month: u8,
    pub day: u8,
    pub hour: u8,
    pub minute: u8,
    pub second: u8,
}

/// What `chrono::DateTime::parse_from_rfc3339` yields on these characters,
/// converted to UTC; `None` where it errs.
pub uninterp spec fn rfc3339_parse(s: Seq<char>) -> Option<UtcTime>;

/// What `chrono::DateTime::parse_from_rfc2822` yields on these characters,
/// converted to UTC; `None` where it errs.
pub uninterp spec fn rfc2822_parse(s: Seq<char>) -> Option<UtcTime>;

/// What `chrono::NaiveDateTime::parse_from_str` yields on these characters
/// under the given format, read as UTC; `None` where it errs.
pub uninterp spec fn naive_datetime_parse(s: Seq<char>, fmt: Seq<char>) -> Option<UtcTime>;

/// What `chrono::NaiveDate::parse_from_str` yields on these characters under
/// the given format, at midnight UTC; `None` where it errs.
pub uninterp spec fn naive_date_parse(s: Seq<char>, fmt: Seq<char>) -> Option<UtcTime>;

/// Relies on chrono's `DateTime::parse_from_rfc3339` and `with_timezone`:
/// the result is a function of the characters alone.
#[verifier::external_body]
fn rfc3339_chars(v: &Vec<char>) -> (r: Option<UtcTime>)
    ensures
        r == rfc3339_parse(v@),
{
    let s: String = v.iter().collect();
    match chrono::DateTime::parse_from_rfc3339(&s) {
        Ok(dt) => {
            let u = dt.with_timezone(&chrono::Utc);
            Some(UtcTime {
                year: u.year(),
                month: u.month() as u8,
                day: u.day() as u8,
                hour: u.hour() as u8,
                minute: u.minute() as u8,
                second: u.second() as u8,
            })
        },
        Err(_) => None,
    }
}

/// Relies on chrono's `DateTime::parse_from_rfc2822` and `with_timezone`:
/// the result is a function of the characters alone.
#[verifier::external_body]
fn rfc2822_chars(v: &Vec<char>) -> (r: Option<UtcTime>)
    ensures
        r == rfc2822_parse(v@),
{
    let s: String = v.iter().collect();
    match chrono::DateTime::parse_from_rfc2822(&s) {
        Ok(dt) => {
            let u = dt.with_timezone(&chrono::Utc);
            Some(UtcTime {
                year: u.year(),
                month: u.month() as u8,
                day: u.day() as u8,
                hour: u.hour() as u8,
                minute: u.minute() as u8,
                second: u.second() as u8,
            })
        },
        Err(_) => None,
    }
}

/// Relies on chrono's `NaiveDateTime::parse_from_str` and `and_utc`:
/// the result is a function of the characters and the format alone.
#[verifier::external_body]
fn naive_datetime_chars(v: &Vec<char>, fmt: &str) -> (r: Option<UtcTime>)
    ensures
        r == naive_datetime_parse(v@, fmt@),
{
    let s: String = v.iter().collect();
    match chrono::NaiveDateTime::parse_from_str(&s, fmt) {
        Ok(naive) => {
            let u = naive.and_utc();
            Some(UtcTime {
                year: u.year(),
                month: u.month() as u8,
                day: u.day() as u8,
                hour: u.hour() as u8,
                minute: u.minute() as u8,
                second: u.second() as u8,
            })
        },
        Err(_) => None,
    }
}

/// Relies on chrono's `NaiveDate::parse_from_str` and `and_hms_opt(0, 0, 0)`:
/// the result is a function of the characters and the format alone.
#[verifier::external_body]
fn naive_date_chars(v: &Vec<char>, fmt: &str) -> (r: Option<UtcTime>)
    ensures
        r == naive_date_parse(v@, fmt@),
{
    let s: String = v.iter().collect();
    match chrono::NaiveDate::parse_from_str(&s, fmt) {
        Ok(d) => d.and_hms_opt(0, 0, 0).map(|naive| UtcTime {
            year: naive.year(),
            month: naive.month() as u8,
            day: naive.day() as u8,
            hour: 0,
            minute: 0,
            second: 0,
        }),
        Err(_) => None,
    }
}

/// One named-zone substitution step of the normalisation.
pub open spec fn subst(s: Seq<char>, pat: Seq<char>, rep: Seq<char>) -> Seq<char> {
    replace_spec(s, pat, rep)
}

/// Replace the common named time zones by their fixed numeric offsets, in
/// the fixed order the engine applies them.
pub open spec fn tz_normalize(s: Seq<char>) -> Seq<char> {
    let s1 = subst(s, "GMT"@, "+0000"@);
    let s2 = subst(s1, "EST"@, "-0500"@);
    let s3 = subst(s2, "EDT"@, "-0400"@);
    let s4 = subst(s3, "CST"@, "-0600"@);
    let s5 = subst(s4, "CDT"@, "-0500"@);
    let s6 = subst(s5, "MST"@, "-0700"@);
    let s7 = subst(s6, "MDT"@, "-0600"@);
    let s8 = subst(s7, "PST"@, "-0800"@);
    let s9 = subst(s8, "PDT"@, "-0700"@);
    subst(s9, "UTC"@, "+0000"@)
}

/// The naive date/time patterns tried after the offset-carrying formats,
/// in order, each read as UTC.
pub open spec fn naive_cascade(t: Seq<char>) -> Option<UtcTime> {
    if naive_datetime_parse(t, "%Y-%m-%dT%H:%M:%S"@) is Some {
        naive_datetime_parse(t, "%Y-%m-%dT%H:%M:%S"@)
    } else if naive_datetime_parse(t, "%Y-%m-%d %H:%M:%S"@) is Some {
        naive_datetime_parse(t, "%Y-%m-%d %H:%M:%S"@)
    } else if naive_datetime_parse(t, "%Y-%m-%dT%H:%M:%SZ"@) is Some {
        naive_datetime_parse(t, "%Y-%m-%dT%H:%M:%SZ"@)
    } else if naive_datetime_parse(t, "%d %b %Y %H:%M:%S"@) is Some {
        naive_datetime_parse(t, "%d %b %Y %H:%M:%S"@)
    } else if naive_datetime_parse(t, "%d %B %Y %H:%M:%S"@) is Some {
        naive_datetime_parse(t, "%d %B %Y %H:%M:%S"@)
    } else if naive_datetime_parse(t, "%a, %d %b %Y %H:%M:%S"@) is Some {
        naive_datetime_parse(t, "%a, %d %b %Y %H:%M:%S"@)
    } else if naive_datetime_parse(t, "%Y-%m-%d"@) is Some {
        naive_datetime_parse(t, "%Y-%m-%d"@)
    } else if naive_datetime_parse(t, "%d/%m/%Y %H:%M:%S"@) is Some {
        naive_datetime_parse(t, "%d/%m/%Y %H:%M:%S"@)
    } else if naive_datetime_parse(t, "%m/%d/%Y %H:%M:%S"@) is Some {
        naive_datetime_parse(t, "%m/%d/%Y %H:%M:%S"@)
    } else {
        naive_date_parse(t, "%Y-%m-%d"@)
    }
}

/// The whole date-parsing cascade: trim; empty means unknown; then
/// RFC 3339, RFC 2822, RFC 2822 after named-zone substitution (only if the
/// substitution changed the string), the naive patterns, and finally a bare
/// date. The first format that matches wins.
pub open spec fn spec_parse_date(s: Seq<char>) -> Option<UtcTime> {
    let t = trim_spec(s);
    if t.len() == 0 {
        None
    } else if rfc3339_parse(t) is Some {
        rfc3339_parse(t)
    } else if rfc2822_parse(t) is Some {
        rfc2822_parse(t)
    } else {
        let n = tz_normalize(t);
        if n != t && rfc2822_parse(n) is Some {
            rfc2822_parse(n)
        } else {
            naive_cascade(t)
        }
    }
}

/// Are two character vectors equal?
fn chars_eq(a: &Vec<char>, b: &Vec<char>) -> (r: bool)
    ensures
        r == (a@ == b@),
{
    if a.len() != b.len() {
        return false;
    }
    let mut i: usize = 0;
    while i < a.len()
        invariant
            a@.len() == b@.len(),
            i <= a@.len(),
            forall|k: int| 0 <= k < i ==> a@[k] == b@[k],
        decreases a@.len() - i,
    {
        if a[i] != b[i] {
            return false;
        }
        i = i + 1;
    }
    proof {
        assert(a@ =~= b@);
    }
    true
}

/// One executable substitution step.
fn subst_step(s: &Vec<char>, pat: &str, rep: &str) -> (r: Vec<char>)
    ensures
        r@ == subst(s@, pat@, rep@),
{
    let p = to_chars(pat);
    let q = to_chars(rep);
    replace_all(s, &p, &q)
}

/// Try parsing a free-form date string in the engine's fixed cascade of
/// formats. Returns `None` when nothing matches; it never fails.
pub fn parse_date(input: &str) -> (r: Option<UtcTime>)
    ensures
        r == spec_parse_date(input@),
{
    let chars = to_chars(input);
    let t = trim(&chars);
    if t.len() == 0 {
        return None;
    }
    if let Some(dt) = rfc3339_chars(&t) {
        return Some(dt);
    }
    if let Some(dt) = rfc2822_chars(&t) {
        return Some(dt);
    }
    let s1 = subst_step(&t, "GMT", "+0000");
    let s2 = subst_step(&s1, "EST", "-0500");
    let s3 = subst_step(&s2, "EDT", "-0400");
    let s4 = subst_step(&s3, "CST", "-0600");
    let s5 = subst_step(&s4, "CDT", "-0500");
    let s6 = subst_step(&s5, "MST", "-0700");
    let s7 = subst_step(&s6, "MDT", "-0600");
    let s8 = subst_step(&s7, "PST", "-0800");
    let s9 = subst_step(&s8, "PDT", "-0700");
    let n = subst_step(&s9, "UTC", "+0000");
    if !chars_eq(&n, &t) {
        if let Some(dt) = rfc2822_chars(&n) {
            return Some(dt);
        }
    }
    if let Some(dt) = naive_datetime_chars(&t, "%Y-%m-%dT%H:%M:%S") {
        return Some(dt);
    }
    if let Some(dt) = naive_datetime_chars(&t, "%Y-%m-%d %H:%M:%S") {
        return Some(dt);
    }
    if let Some(dt) = naive_datetime_chars(&t, "%Y-%m-%dT%H:%M:%SZ") {
        return Some(dt);
    }
    if let Some(dt) = naive_datetime_chars(&t, "%d %b %Y %H:%M:%S") {
        return Some(dt);
    }
    if let Some(dt) = naive_datetime_chars(&t, "%d %B %Y %H:%M:%S") {
        return Some(dt);
    }
    if let Some(dt) = naive_datetime_chars(&t, "%a, %d %b %Y %H:%M:%S") {
        return Some(dt);
    }
    if let Some(dt) = naive_datetime_chars(&t, "%Y-%m-%d") {
        return Some(dt);
    }
    if let Some(dt) = naive_datetime_chars(&t, "%d/%m/%Y %H:%M:%S") {
        return Some(dt);
    }
    if let Some(dt) = naive_datetime_chars(&t, "%m/%d/%Y %H:%M:%S") {
        return Some(dt);
    }
    naive_date_chars(&t, "%Y-%m-%d")
}

/// Two decimal digits, zero padded.
pub open spec fn pad2(n: int) -> Seq<char> {
    if n < 10 {
        seq!['0'] + dec_digits(n)
    } else {
        dec_digits(n)
    }
}

/// Four decimal digits, zero padded.
pub open spec fn pad4(n: int) -> Seq<char> {
    if n < 10 {
        seq!['0', '0', '0'] + dec_digits(n)
    } else if n < 100 {
        seq!['0', '0'] + dec_digits(n)
    } else if n < 1000 {
        seq!['0'] + dec_digits(n)
    } else {
        dec_digits(n)
    }
}

/// The RFC 3339 rendering of a UTC timestamp, with an explicit `+00:00`
/// offset.
pub open spec fn rfc3339_string(t: UtcTime) -> Seq<char> {
    pad4(t.year as int) + seq!['-'] + pad2(t.month as int) + seq!['-'] + pad2(t.day as int)
        + seq!['T'] + pad2(t.hour as int) + seq![':'] + pad2(t.minute as int) + seq![':'] + pad2(
        t.second as int,
    ) + "+00:00"@
}

/// A timestamp whose fields form a plausible calendar date that the
/// formatter can render with fixed-width fields.
pub open spec fn renderable(t: UtcTime) -> bool {
    0 <= t.year <= 9999 && 1 <= t.month <= 12 && 1 <= t.day <= 31 && t.hour <= 23 && t.minute
        <= 59 && t.second <= 60
}

impl UtcTime {
    /// Render the timestamp in RFC 3339 form, `YYYY-MM-DDTHH:MM:SS+00:00`.
    pub fn to_rfc3339(&self) -> (r: String)
        requires
            renderable(*self),
        ensures
            r@ == rfc3339_string(*self),
    {
        let mut out = String::new();
        push_padded4(self.year as u64, &mut out);
        out.append("-");
        push_padded2(self.month as u64, &mut out);
        out.append("-");
        push_padded2(self.day as u64, &mut out);
        out.append("T");
        push_padded2(self.hour as u64, &mut out);
        out.append(":");
        push_padded2(self.minute as u64, &mut out);
        out.append(":");
        push_padded2(self.second as u64, &mut out);
        out.append("+00:00");
        proof {
            reveal_strlit("-");
            reveal_strlit("T");
            reveal_strlit(":");
            assert(out@ =~= rfc3339_string(*self));
        }
        out
    }
}

/// Append `n` as two zero-padded decimal digits.
fn push_padded2(n: u64, out: &mut String)
    requires
        n <= 99,
    ensures
        final(out)@ == old(out)@ + pad2(n as int),
{
    if n < 10 {
        out.append("0");
        proof {
            reveal_strlit("0");
        }
    }
    push_decimal(n, out);
    proof {
        if n < 10 {
            assert(old(out)@ + pad2(n as int) =~= old(out)@ + seq!['0'] + dec_digits(n as int));
            assert("0"@ =~= seq!['0']);
            assert(final(out)@ =~= old(out)@ + pad2(n as int));
        }
    }
}

/// Append `n` as four zero-padded decimal digits.
fn push_padded4(n: u64, out: &mut String)
    requires
        n <= 9999,
    ensures
        final(out)@ == old(out)@ + pad4(n as int),
{
    if n < 10 {
        out.append("000");
        proof {
            reveal_strlit("000");
        }
    } else if n < 100 {
        out.append("00");
        proof {
            reveal_strlit("00");
        }
    } else if n < 1000 {
        out.append("0");
        proof {
            reveal_strlit("0");
        }
    }
    push_decimal(n, out);
    proof {
        if n < 10 {
            assert("000"@ =~= seq!['0', '0', '0']);
        } else if n < 100 {
            assert("00"@ =~= seq!['0', '0']);
        } else if n < 1000 {
            assert("0"@ =~= seq!['0']);
        }
        assert(final(out)@ =~= old(out)@ + pad4(n as int));
    }
}

} // verus!
