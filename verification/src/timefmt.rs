use vstd::prelude::*;
use crate::numfmt::{dec_digits, lemma_dec_digits_len, u64_string_pad2, year_string, zero_pad};
use chrono::Datelike;
use chrono::Timelike;

verus! {

/// A year as `%Y` renders it: zero-padded to four digits, `-` in front
/// when negative.
pub open spec fn spec_year(y: int) -> Seq<char> {
    if y >= 0 {
        zero_pad(dec_digits(y), 4)
    } else {
        seq!['-'] + zero_pad(dec_digits(-y), 4)
    }
}

/// A two-digit calendar field as `%m`, `%d`, `%H`, `%M`, `%S` render it.
pub open spec fn spec_two(n: int) -> Seq<char> {
    zero_pad(dec_digits(n), 2)
}

/// A calendar date and clock time in `YYYY-MM-DD HH:MM:SS` form.
pub open spec fn spec_civil(y: int, mo: int, d: int, h: int, mi: int, s: int) -> Seq<char> {
    spec_year(y) + seq!['-'] + spec_two(mo) + seq!['-'] + spec_two(d) + seq![' '] + spec_two(h)
        + seq![':'] + spec_two(mi) + seq![':'] + spec_two(s)
}

/// Format a calendar date and clock time as `YYYY-MM-DD HH:MM:SS`.
pub fn format_civil(y: i32, mo: u32, d: u32, h: u32, mi: u32, s: u32) -> (r: String)
    requires
        -1000000 <= y <= 1000000,
        mo <= 99,
        d <= 99,
        h <= 99,
        mi <= 99,
        s <= 99,
    ensures
        r@ == spec_civil(y as int, mo as int, d as int, h as int, mi as int, s as int),
{
    let mut r = year_string(y);
    r.append("-");
    r.append(u64_string_pad2(mo as u64).as_str());
    r.append("-");
    r.append(u64_string_pad2(d as u64).as_str());
    r.append(" ");
    r.append(u64_string_pad2(h as u64).as_str());
    r.append(":");
    r.append(u64_string_pad2(mi as u64).as_str());
    r.append(":");
    r.append(u64_string_pad2(s as u64).as_str());
    proof {
        reveal_strlit("-");
        reveal_strlit(" ");
        reveal_strlit(":");
        assert(r@ =~= spec_civil(y as int, mo as int, d as int, h as int, mi as int, s as int));
    }
    r
}

/// The shape of a formatted local time: `spec_civil` of calendar fields
/// within the ranges the time boundary guarantees.
pub open spec fn spec_civil_form(m: Seq<char>) -> bool {
    exists|y: int, mo: int, d: int, h: int, mi: int, s: int|
        {
            &&& -262144 <= y <= 262143
            &&& 1 <= mo <= 12
            &&& 1 <= d <= 31
            &&& 0 <= h < 24
            &&& 0 <= mi < 60
            &&& 0 <= s < 60
            &&& m == spec_civil(y, mo, d, h, mi, s)
        }
}

/// The shapes the modification-time column can take: `UNKNOWN`, or a
/// formatted calendar date and clock time.
pub open spec fn spec_mtime_form(m: Seq<char>) -> bool {
    m == "UNKNOWN"@ || spec_civil_form(m)
}

/// A formatted local time is at least 19 characters long — four year
/// digits, five separators, five two-digit fields — so it can never be
/// mistaken for the 7-character `UNKNOWN`.
pub proof fn lemma_civil_form_long(m: Seq<char>)
    requires
        spec_civil_form(m),
    ensures
        m.len() >= 19,
{
    let (y, mo, d, h, mi, s) = choose|y: int, mo: int, d: int, h: int, mi: int, s: int|
        {
            &&& -262144 <= y <= 262143
            &&& 1 <= mo <= 12
            &&& 1 <= d <= 31
            &&& 0 <= h < 24
            &&& 0 <= mi < 60
            &&& 0 <= s < 60
            &&& m == spec_civil(y, mo, d, h, mi, s)
        };
    lemma_dec_digits_len(y);
    lemma_dec_digits_len(-y);
    lemma_dec_digits_len(mo);
    lemma_dec_digits_len(d);
    lemma_dec_digits_len(h);
    lemma_dec_digits_len(mi);
    lemma_dec_digits_len(s);
    assert(spec_year(y).len() >= 4);
    assert(m.len() >= 19);
}

/// Relies on chrono's `DateTime::from_timestamp`, `DateTime::with_timezone`
/// with `Local`, and the `Datelike`/`Timelike` accessors: breaks a Unix
/// timestamp into the local calendar date and clock time. The breakdown
/// depends on the machine's time zone, so only the accessors' field ranges
/// are stated; the local calendar year can land one year past either end
/// of the UTC calendar's named year range when the zone offset steps over
/// its edge. `None` comes only from `from_timestamp` on a timestamp beyond
/// the calendar's range, which holds every second within the stated bound.
#[verifier::external_body]
fn local_civil_parts(epoch_secs: i64) -> (r: Option<(i32, u32, u32, u32, u32, u32)>)
    ensures
        r matches Some(p) ==> {
            &&& -262144 <= p.0 <= 262143
            &&& 1 <= p.1 <= 12
            &&& 1 <= p.2 <= 31
            &&& p.3 < 24
            &&& p.4 < 60
            &&& p.5 < 60
        },
        -8000000000000 <= epoch_secs <= 8000000000000 ==> r is Some,
{
    match chrono::DateTime::from_timestamp(epoch_secs, 0) {
        None => None,
        Some(utc) => {
            let t = utc.with_timezone(&chrono::Local);
            Some((t.year(), t.month(), t.day(), t.hour(), t.minute(), t.second()))
        },
    }
}

/// The modification-time column of an entry: the local time as
/// `YYYY-MM-DD HH:MM:SS`, or `UNKNOWN` when no time could be read or the
/// timestamp lies outside the calendar's range. Every timestamp within
/// the stated bound — several hundred millennia either side of the epoch —
/// is formatted, never degraded.
pub fn mtime_display(mtime_ok: bool, epoch_secs: i64) -> (r: String)
    ensures
        !mtime_ok ==> r@ == "UNKNOWN"@,
        mtime_ok ==> spec_mtime_form(r@),
        mtime_ok && -8000000000000 <= epoch_secs <= 8000000000000 ==> spec_civil_form(r@)
            && r@ != "UNKNOWN"@,
{
    if !mtime_ok {
        return "UNKNOWN".to_owned();
    }
    match local_civil_parts(epoch_secs) {
        None => "UNKNOWN".to_owned(),
        Some((y, mo, d, h, mi, s)) => {
            let r = format_civil(y, mo, d, h, mi, s);
            proof {
                assert(r@ == spec_civil(y as int, mo as int, d as int, h as int, mi as int, s as int));
                assert(spec_civil_form(r@));
                lemma_civil_form_long(r@);
                reveal_strlit("UNKNOWN");
                assert(r@ != "UNKNOWN"@);
            }
            r
        },
    }
}

} // verus!
