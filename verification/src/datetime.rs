//! Instants as nanoseconds since the Unix epoch (UTC), and their RFC 3339
//! text form, as stored in the badge database.

use vstd::prelude::*;

verus! {

/// The error of a failed RFC 3339 parse.
#[verifier::external_type_specification]
#[verifier::external_body]
pub struct ExParseError(chrono::ParseError);

/// Why a stored date could not be read back.
#[derive(Debug, PartialEq, Eq, Structural, Clone, Copy)]
pub enum DateError {
    /// The text is not an RFC 3339 date-and-time.
    Unparsable,
}

/// Nanoseconds in a second.
pub const NANOS_PER_SECOND: i128 = 1_000_000_000;

/// The whole seconds of an instant given in nanoseconds (rounded down).
pub open spec fn secs_of(t: int) -> int {
    t / (NANOS_PER_SECOND as int)
}

/// The nanoseconds of an instant past its whole second.
pub open spec fn subsec_of(t: int) -> int {
    t % (NANOS_PER_SECOND as int)
}

/// The instant, in nanoseconds, of whole seconds and nanoseconds.
pub open spec fn instant_of(secs: int, nanos: int) -> int {
    secs * NANOS_PER_SECOND + nanos
}

/// The timestamp (whole seconds since the epoch) and the nanoseconds past
/// it of the date-and-time an RFC 3339 text denotes, or `None` when the text
/// is not RFC 3339.
pub uninterp spec fn rfc3339_parts(text: Seq<char>) -> Option<(i64, u32)>;

/// The instant an RFC 3339 text denotes, in nanoseconds since the epoch; a
/// leap second (nanoseconds past one billion) counts as the last nanosecond
/// before the next second.
pub open spec fn rfc3339_instant(text: Seq<char>) -> Option<int> {
    match rfc3339_parts(text) {
        Some(p) => Some(instant_of(p.0 as int, if p.1 < NANOS_PER_SECOND { p.1 as int } else { NANOS_PER_SECOND - 1 })),
        None => None,
    }
}

/// The RFC 3339 text (UTC, `+00:00` offset, fractional digits when the
/// nanoseconds are not zero) of an instant given in whole seconds and
/// nanoseconds.
pub uninterp spec fn rfc3339_text(seconds: i64, nanos: u32) -> Seq<char>;

/// Last second of the year 9999: the instants whose RFC 3339 text has a
/// four-digit year lie in `0..=MAX_FOUR_DIGIT_YEAR_SECONDS` from 1970 on.
pub const MAX_FOUR_DIGIT_YEAR_SECONDS: i64 = 253402300799;

/// Trusted: calls `chrono::DateTime::parse_from_rfc3339` and takes the
/// `timestamp` and `timestamp_subsec_nanos` of the result. The result is
/// named `rfc3339_parts` of the text; nothing more of the parser is claimed.
#[verifier::external_body]
fn parse_rfc3339_raw(text: &str) -> (r: Result<(i64, u32), chrono::ParseError>)
    ensures
        r is Ok <==> rfc3339_parts(text@) is Some,
        r matches Ok(p) ==> rfc3339_parts(text@) == Some(p),
{
    match chrono::DateTime::parse_from_rfc3339(text) {
        Ok(dt) => Ok((dt.timestamp(), dt.timestamp_subsec_nanos())),
        Err(e) => Err(e),
    }
}

/// Reads an RFC 3339 date-and-time as nanoseconds since the epoch.
pub fn parse_datetime(text: &str) -> (r: Result<i128, DateError>)
    ensures
        r is Ok <==> rfc3339_instant(text@) is Some,
        r matches Ok(t) ==> rfc3339_instant(text@) == Some(t as int),
        r matches Err(e) ==> e == DateError::Unparsable,
{
    match parse_rfc3339_raw(text) {
        Ok((secs, nanos)) => {
            let n: i128 = if (nanos as i128) < NANOS_PER_SECOND { nanos as i128 } else { NANOS_PER_SECOND - 1 };
            assert(-9223372036854775808 * 1_000_000_000 <= secs as int * 1_000_000_000 <= 9223372036854775807 * 1_000_000_000)
                by (nonlinear_arith) requires -9223372036854775808 <= secs <= 9223372036854775807;
            Ok((secs as i128) * NANOS_PER_SECOND + n)
        },
        Err(_) => Err(DateError::Unparsable),
    }
}

/// The whole seconds and the nanoseconds past them of an instant.
pub fn split_instant(t: i128) -> (r: (i128, u32))
    ensures
        r.0 == secs_of(t as int),
        r.1 == subsec_of(t as int),
        r.1 < NANOS_PER_SECOND,
{
    if t >= 0 {
        let q = t / NANOS_PER_SECOND;
        let m = t % NANOS_PER_SECOND;
        assert(q == secs_of(t as int) && m == subsec_of(t as int)) by (nonlinear_arith)
            requires t >= 0, q == t / 1_000_000_000i128, m == t % 1_000_000_000i128;
        (q, m as u32)
    } else {
        let a: i128 = -(t + 1);
        let q = a / NANOS_PER_SECOND;
        let m = a % NANOS_PER_SECOND;
        assert(-(q + 1) == secs_of(t as int) && NANOS_PER_SECOND - 1 - m == subsec_of(t as int)) by (nonlinear_arith)
            requires t < 0, a == -(t + 1), a >= 0, q == a / 1_000_000_000i128, m == a % 1_000_000_000i128,
                0 <= m < 1_000_000_000;
        (-(q + 1), (NANOS_PER_SECOND - 1 - m) as u32)
    }
}

/// First second chrono represents: January 1 of year -262143, 00:00:00 UTC
/// (`NaiveDate::MIN` at midnight).
pub const CHRONO_MIN_SECONDS: i64 = -8334601228800;

/// Last second chrono represents: December 31 of year 262142, 23:59:59 UTC
/// (`NaiveDate::MAX` at the last second of the day).
pub const CHRONO_MAX_SECONDS: i64 = 8210266876799;

/// An instant, in seconds since the epoch, that chrono can represent.
pub open spec fn in_chrono_range(seconds: int) -> bool {
    CHRONO_MIN_SECONDS <= seconds <= CHRONO_MAX_SECONDS
}

/// Trusted: calls `chrono::DateTime::<Utc>::from_timestamp(seconds, nanos)`
/// and, when that instant is representable, its `to_rfc3339`. Claimed: a
/// text comes back exactly for the seconds chrono represents (with
/// `nanos` below one billion, `from_timestamp` accepts every second between
/// `NaiveDate::MIN` and `NaiveDate::MAX`), the text is
/// `rfc3339_text(seconds, nanos)`, and for instants with a four-digit year
/// parsing the text gives the seconds and nanoseconds back (the writer
/// prints `YYYY-MM-DDTHH:MM:SS`, the nanoseconds in 3, 6 or 9 digits when not
/// zero, and `+00:00`, which the RFC 3339 parser reads).
#[verifier::external_body]
fn format_rfc3339(seconds: i64, nanos: u32) -> (r: Option<String>)
    requires
        nanos < NANOS_PER_SECOND,
    ensures
        r is Some <==> in_chrono_range(seconds as int),
        r matches Some(t) ==> t@ == rfc3339_text(seconds, nanos),
        r matches Some(t) ==> (0 <= seconds <= MAX_FOUR_DIGIT_YEAR_SECONDS ==> rfc3339_parts(t@) == Some((seconds, nanos))),
{
    match chrono::DateTime::from_timestamp(seconds, nanos) {
        Some(dt) => Some(dt.to_rfc3339()),
        None => None,
    }
}

/// The RFC 3339 text of an instant given in nanoseconds: written exactly
/// when chrono represents its second, and read back as the same instant
/// when its year has four digits.
pub fn instant_to_rfc3339(t: i128) -> (r: Option<String>)
    ensures
        r is Some <==> in_chrono_range(secs_of(t as int)),
        r matches Some(text) ==> text@ == rfc3339_text(secs_of(t as int) as i64, subsec_of(t as int) as u32),
        r matches Some(text) ==> (0 <= secs_of(t as int) <= MAX_FOUR_DIGIT_YEAR_SECONDS
            ==> rfc3339_instant(text@) == Some(t as int)),
{
    let (secs, nanos) = split_instant(t);
    if secs < CHRONO_MIN_SECONDS as i128 || secs > CHRONO_MAX_SECONDS as i128 {
        return None;
    }
    let r = format_rfc3339(secs as i64, nanos);
    proof {
        assert(t as int == instant_of(secs_of(t as int), subsec_of(t as int))) by (nonlinear_arith)
            requires secs_of(t as int) == (t as int) / 1_000_000_000, subsec_of(t as int) == (t as int) % 1_000_000_000;
    }
    r
}

/// The calendar date (`%Y-%m-%d`, UTC) of an instant given in seconds.
pub uninterp spec fn ymd_text(seconds: i64) -> Seq<char>;

/// Trusted: calls `chrono::DateTime::<Utc>::from_timestamp(seconds, 0)` and,
/// when that instant is representable, formats it with `"%Y-%m-%d"`.
/// Claimed: a date comes back exactly for the instants chrono represents,
/// and it is `ymd_text(seconds)`.
#[verifier::external_body]
fn format_ymd(seconds: i64) -> (r: Option<String>)
    ensures
        r is Some <==> in_chrono_range(seconds as int),
        r matches Some(t) ==> t@ == ymd_text(seconds),
{
    match chrono::DateTime::from_timestamp(seconds, 0) {
        Some(dt) => Some(dt.format("%Y-%m-%d").to_string()),
        None => None,
    }
}

/// The calendar date of an instant given in nanoseconds, when chrono
/// represents it.
pub fn instant_date(t: i128) -> (r: Option<String>)
    ensures
        r is Some <==> in_chrono_range(secs_of(t as int)),
        r matches Some(d) ==> d@ == ymd_text(secs_of(t as int) as i64),
{
    let (secs, _) = split_instant(t);
    if secs < CHRONO_MIN_SECONDS as i128 || secs > CHRONO_MAX_SECONDS as i128 {
        return None;
    }
    format_ymd(secs as i64)
}

/// The largest number of days a `chrono::TimeDelta` holds (`i64::MAX`
/// milliseconds).
pub const MAX_DELTA_DAYS: i64 = 106751991167;

/// The second `days` whole days after second `instant`: defined when chrono
/// represents both the instant and the sum.
pub open spec fn shifted_by_days(instant: i64, days: i64) -> Option<i64> {
    let sum = instant + 86400 * days;
    if in_chrono_range(instant as int) && in_chrono_range(sum) { Some(sum as i64) } else { None }
}

/// Trusted: calls `chrono::DateTime::<Utc>::from_timestamp(instant, 0)`,
/// then `checked_add_signed(TimeDelta::days(days))` and the `timestamp` of
/// the sum. Claimed: the result is `shifted_by_days(instant, days)`:
/// `from_timestamp` refuses instants outside chrono's range, and
/// `checked_add_signed` returns `None` exactly when the sum leaves it.
/// `TimeDelta::days` panics beyond `MAX_DELTA_DAYS`, which `requires`
/// excludes.
#[verifier::external_body]
fn add_days(instant: i64, days: i64) -> (r: Option<i64>)
    requires
        -MAX_DELTA_DAYS <= days <= MAX_DELTA_DAYS,
    ensures
        r == shifted_by_days(instant, days),
{
    match chrono::DateTime::from_timestamp(instant, 0) {
        Some(dt) => match dt.checked_add_signed(chrono::TimeDelta::days(days)) {
            Some(t) => Some(t.timestamp()),
            None => None,
        },
        None => None,
    }
}

/// The instant, in nanoseconds, `days` whole days after `t`: defined when
/// chrono represents the second of `t` and that of the sum. Adding whole days
/// keeps the nanoseconds past the second.
pub open spec fn shifted_instant(t: int, days: int) -> Option<int> {
    if in_chrono_range(secs_of(t)) && in_chrono_range(secs_of(t) + 86400 * days) {
        Some(t + 86400 * NANOS_PER_SECOND * days)
    } else {
        None
    }
}

/// The instant `days` whole days after `t`, as chrono's
/// `checked_add_signed(TimeDelta::days(days))` gives it.
pub fn add_days_to_instant(t: i128, days: i64) -> (r: Option<i128>)
    requires
        -MAX_DELTA_DAYS <= days <= MAX_DELTA_DAYS,
    ensures
        r == (match shifted_instant(t as int, days as int) { Some(v) => Some(v as i128), None => None }),
{
    let (secs, nanos) = split_instant(t);
    if secs < CHRONO_MIN_SECONDS as i128 || secs > CHRONO_MAX_SECONDS as i128 {
        return None;
    }
    proof {
        assert(t as int == instant_of(secs_of(t as int), subsec_of(t as int))) by (nonlinear_arith)
            requires secs_of(t as int) == (t as int) / 1_000_000_000, subsec_of(t as int) == (t as int) % 1_000_000_000;
    }
    match add_days(secs as i64, days) {
        Some(s2) => {
            let r = (s2 as i128) * NANOS_PER_SECOND + (nanos as i128);
            assert(r == t + 86400 * NANOS_PER_SECOND * days) by (nonlinear_arith)
                requires r == s2 * 1_000_000_000 + nanos, s2 == secs + 86400 * days,
                    t == secs * 1_000_000_000 + nanos;
            Some(r)
        },
        None => None,
    }
}

/// Declares the error of a clock reading that lies before the epoch.
#[verifier::external_type_specification]
#[verifier::external_body]
pub struct ExSystemTimeError(std::time::SystemTimeError);

/// Trusted: calls `SystemTime::elapsed` on `UNIX_EPOCH`, which reads the
/// system clock and gives the time since the epoch, or an error holding the
/// time before it when the clock is set earlier. It does not panic. Nothing
/// is claimed of the clock.
#[verifier::external_body]
fn epoch_elapsed() -> (r: Result<std::time::Duration, std::time::SystemTimeError>)
{
    std::time::UNIX_EPOCH.elapsed()
}

/// Trusted: calls `SystemTimeError::duration`, the time by which the clock
/// reading lies before the epoch. Nothing is claimed of it.
#[verifier::external_body]
fn time_before_epoch(e: &std::time::SystemTimeError) -> (r: std::time::Duration)
{
    e.duration()
}

/// Trusted: calls `Duration::as_secs`, the whole seconds of a duration.
/// Nothing is claimed of it.
#[verifier::external_body]
fn whole_seconds(d: &std::time::Duration) -> (r: u64)
{
    d.as_secs()
}

/// Trusted: calls `Duration::subsec_nanos`, the nanoseconds of a duration
/// past its whole seconds, which the documentation bounds below one billion.
#[verifier::external_body]
fn nanos_past_second(d: &std::time::Duration) -> (r: u32)
    ensures
        r < NANOS_PER_SECOND,
{
    d.subsec_nanos()
}

fn duration_nanos(d: &std::time::Duration) -> (r: i128)
    ensures
        r >= 0,
{
    let s = whole_seconds(d);
    let n = nanos_past_second(d);
    assert(0 <= s as int * 1_000_000_000 <= 18446744073709551615 * 1_000_000_000)
        by (nonlinear_arith) requires 0 <= s <= 18446744073709551615u64;
    (s as i128) * NANOS_PER_SECOND + (n as i128)
}

/// The system clock in nanoseconds since the epoch, negative for readings
/// before it. It does not panic; nothing is claimed of the clock.
pub(crate) fn now_timestamp() -> (r: i128)
{
    match epoch_elapsed() {
        Ok(d) => duration_nanos(&d),
        Err(e) => -duration_nanos(&time_before_epoch(&e)),
    }
}

} // verus!
