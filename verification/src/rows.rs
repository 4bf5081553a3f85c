//! The row form of a badge in the `badges` table of the database: dates as
//! RFC 3339 text and the enabled flag as an integer.

use vstd::prelude::*;
use crate::badges::{Badge, BadgeError, BadgeRecord};
use crate::datetime::{in_chrono_range, instant_to_rfc3339, parse_datetime, rfc3339_instant, rfc3339_text, secs_of, subsec_of,
    MAX_FOUR_DIGIT_YEAR_SECONDS};

verus! {

/// One row of the `badges` table.
#[derive(Debug)]
pub struct BadgeRow {
    pub id: i32,
    pub uid: String,
    pub name: String,
    pub created_at: String,
    pub last_used: Option<String>,
    pub expires_at: Option<String>,
    pub enabled: i32,
}

/// The mathematical content of a row.
pub struct RowRecord {
    pub id: i32,
    pub uid: Seq<char>,
    pub name: Seq<char>,
    pub created_at: Seq<char>,
    pub last_used: Option<Seq<char>>,
    pub expires_at: Option<Seq<char>>,
    pub enabled: i32,
}

impl View for BadgeRow {
    type V = RowRecord;

    open spec fn view(&self) -> RowRecord {
        RowRecord {
            id: self.id,
            uid: self.uid@,
            name: self.name@,
            created_at: self.created_at@,
            last_used: match self.last_used { Some(t) => Some(t@), None => None },
            expires_at: match self.expires_at { Some(t) => Some(t@), None => None },
            enabled: self.enabled,
        }
    }
}

/// An optional date column read back: `None` stays `None`, text must parse.
pub open spec fn decode_date_column(t: Option<Seq<char>>) -> Option<Option<i128>> {
    match t {
        None => Some(None),
        Some(text) => match rfc3339_instant(text) {
            Some(s) => Some(Some(s as i128)),
            None => None,
        },
    }
}

/// The badge a row stands for, or `None` when one of its dates does not parse.
pub open spec fn decode_row(r: RowRecord) -> Option<BadgeRecord> {
    match (rfc3339_instant(r.created_at), decode_date_column(r.last_used), decode_date_column(r.expires_at)) {
        (Some(c), Some(l), Some(e)) => Some(BadgeRecord {
            id: r.id,
            uid: r.uid,
            name: r.name,
            created_at: c as i128,
            last_used: l,
            expires_at: e,
            enabled: r.enabled != 0,
        }),
        _ => None,
    }
}

/// The instant has a four-digit year (1970 to 9999).
pub open spec fn storable_instant(t: i128) -> bool {
    0 <= secs_of(t as int) <= MAX_FOUR_DIGIT_YEAR_SECONDS
}

/// The RFC 3339 text an instant is written as.
pub open spec fn instant_text(t: i128) -> Seq<char> {
    rfc3339_text(secs_of(t as int) as i64, subsec_of(t as int) as u32)
}

/// Every instant of the badge can be written as RFC 3339 text.
pub open spec fn writable_badge(b: BadgeRecord) -> bool {
    in_chrono_range(secs_of(b.created_at as int))
        && (b.last_used matches Some(t) ==> in_chrono_range(secs_of(t as int)))
        && (b.expires_at matches Some(t) ==> in_chrono_range(secs_of(t as int)))
}

/// Every instant of the badge has a four-digit year.
pub open spec fn storable_badge(b: BadgeRecord) -> bool {
    storable_instant(b.created_at)
        && (b.last_used matches Some(t) ==> storable_instant(t))
        && (b.expires_at matches Some(t) ==> storable_instant(t))
}

fn decode_optional_date(t: &Option<String>) -> (r: Result<Option<i128>, BadgeError>)
    ensures
        r is Ok <==> decode_date_column(match t { Some(s) => Some(s@), None => None }) is Some,
        r matches Ok(v) ==> decode_date_column(match t { Some(s) => Some(s@), None => None }) == Some(v),
        r matches Err(e) ==> e matches BadgeError::InvalidDate,
{
    match t {
        None => Ok(None),
        Some(text) => match parse_datetime(text.as_str()) {
            Ok(s) => Ok(Some(s)),
            Err(_) => Err(BadgeError::InvalidDate),
        },
    }
}

/// Reads a badge out of a table row.
pub fn decode_badge_row(row: &BadgeRow) -> (r: Result<Badge, BadgeError>)
    ensures
        r is Ok <==> decode_row(row@) is Some,
        r matches Ok(b) ==> decode_row(row@) == Some(b@),
        r matches Err(e) ==> e matches BadgeError::InvalidDate,
{
    let created_at = match parse_datetime(row.created_at.as_str()) {
        Ok(s) => s,
        Err(_) => { return Err(BadgeError::InvalidDate); },
    };
    let last_used = decode_optional_date(&row.last_used)?;
    let expires_at = decode_optional_date(&row.expires_at)?;
    Ok(Badge {
        id: row.id,
        uid: row.uid.clone(),
        name: row.name.clone(),
        created_at: created_at,
        last_used: last_used,
        expires_at: expires_at,
        enabled: row.enabled != 0,
    })
}

fn encode_optional_date(t: Option<i128>) -> (r: Result<Option<String>, BadgeError>)
    ensures
        r matches Ok(v) ==> (match t {
            None => v is None,
            Some(s) => v matches Some(text) && text@ == instant_text(s)
                && (storable_instant(s) ==> rfc3339_instant(text@) == Some(s as int)),
        }),
        r is Ok <==> (match t { None => true, Some(s) => in_chrono_range(secs_of(s as int)) }),
        r matches Err(e) ==> e matches BadgeError::InvalidDate,
{
    match t {
        None => Ok(None),
        Some(s) => match instant_to_rfc3339(s) {
            Some(text) => Ok(Some(text)),
            None => Err(BadgeError::InvalidDate),
        },
    }
}

/// Writes a badge as a table row. A badge can be written exactly when chrono
/// represents all its instants; for instants with four-digit years, reading
/// the row back gives the badge again.
pub fn encode_badge_row(b: &Badge) -> (r: Result<BadgeRow, BadgeError>)
    ensures
        r is Ok <==> writable_badge(b@),
        storable_badge(b@) ==> r is Ok,
        storable_badge(b@) ==> (r matches Ok(row) && decode_row(row@) == Some(b@)),
        r matches Ok(row) ==> row.id == b.id && row@.uid == b@.uid && row@.name == b@.name
            && row@.created_at == instant_text(b.created_at)
            && row.enabled == (if b.enabled { 1i32 } else { 0i32 }),
        r matches Err(e) ==> e matches BadgeError::InvalidDate,
{
    let created_at = match instant_to_rfc3339(b.created_at) {
        Some(text) => text,
        None => { return Err(BadgeError::InvalidDate); },
    };
    let last_used = encode_optional_date(b.last_used)?;
    let expires_at = encode_optional_date(b.expires_at)?;
    let row = BadgeRow {
        id: b.id,
        uid: b.uid.clone(),
        name: b.name.clone(),
        created_at: created_at,
        last_used: last_used,
        expires_at: expires_at,
        enabled: if b.enabled { 1 } else { 0 },
    };
    proof {
        if storable_badge(b@) {
            assert(decode_date_column(row@.last_used) == Some(b.last_used));
            assert(decode_date_column(row@.expires_at) == Some(b.expires_at));
        }
    }
    Ok(row)
}

} // verus!
