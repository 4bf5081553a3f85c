//! The sensor monitor of the bench tool: it polls the Arduino's registers and
//! prints one status line, overwritten in place.

use vstd::prelude::*;
use crate::arduino_consts::{EVENT_MOTION_DETECTED, EVENT_RFID_READ};
use crate::text::{push_char, to_hex_upper, hex_upper};

verus! {

/// Width the RFID column is padded to.
pub const RFID_COLUMN_WIDTH: usize = 16;

/// The label of a status-register value: `ON `, `TRIGGERED `, or `OFF`.
pub open spec fn alarm_label_text(value: u8) -> Seq<char> {
    if value == 1 {
        "ON "@
    } else if value == 2 {
        "TRIGGERED "@
    } else {
        "OFF"@
    }
}

/// The label of a status-register value.
pub fn alarm_label(value: u8) -> (r: &'static str)
    ensures
        r@ == alarm_label_text(value),
{
    if value == 1 {
        "ON "
    } else if value == 2 {
        "TRIGGERED "
    } else {
        "OFF"
    }
}

/// The value written to the status register to turn the alarm on or off.
pub fn alarm_value(enabled: bool) -> (r: u8)
    ensures
        r == (if enabled { 1u8 } else { 0u8 }),
{
    if enabled { 1 } else { 0 }
}

/// Whether an event-register value reports motion.
pub fn motion_in(events: u8) -> (r: bool)
    ensures
        r == (events & EVENT_MOTION_DETECTED != 0),
{
    events & EVENT_MOTION_DETECTED != 0
}

/// Whether an event-register value reports a badge to read.
pub fn rfid_in(events: u8) -> (r: bool)
    ensures
        r == (events & EVENT_RFID_READ != 0),
{
    events & EVENT_RFID_READ != 0
}

/// The tag of RFID register values, in upper-case hexadecimal.
pub fn rfid_tag(values: &[u8]) -> (r: String)
    ensures
        r@ == hex_upper(values@),
{
    to_hex_upper(values)
}

/// Text padded with spaces on the right to at least `width` characters.
pub open spec fn pad_right(s: Seq<char>, width: int) -> Seq<char> {
    if s.len() >= width { s } else { s + Seq::new((width - s.len()) as nat, |i: int| ' ') }
}

/// The status line: carriage return, alarm label, `OUI`/`NON` for motion,
/// and the RFID tag (`Aucun` when none) padded to 16 characters.
pub open spec fn status_line_text(alarm: u8, motion: bool, rfid: Option<Seq<char>>) -> Seq<char> {
    "\r[Alarme: "@ + alarm_label_text(alarm) + "] [Mouvement: "@ + (if motion { "OUI"@ } else { "NON"@ })
        + "] [RFID: "@ + pad_right(match rfid { Some(t) => t, None => "Aucun"@ }, RFID_COLUMN_WIDTH as int) + "]"@
}

/// Formats the status line.
pub fn status_line(alarm: u8, motion: bool, rfid: Option<String>) -> (r: String)
    ensures
        r@ == status_line_text(alarm, motion, match rfid { Some(t) => Some(t@), None => None }),
{
    let tag = match rfid {
        Some(t) => t,
        None => String::from_str("Aucun"),
    };
    let mut padded = tag.clone();
    let n = tag.as_str().unicode_len();
    let mut i = n;
    while i < RFID_COLUMN_WIDTH
        invariant
            n == tag@.len(),
            n <= i <= RFID_COLUMN_WIDTH || (n > RFID_COLUMN_WIDTH && i == n),
            padded@ == tag@ + Seq::new((i - n) as nat, |k: int| ' '),
        decreases RFID_COLUMN_WIDTH - i,
    {
        push_char(&mut padded, ' ');
        proof {
            assert(padded@ =~= tag@ + Seq::new((i + 1 - n) as nat, |k: int| ' '));
        }
        i = i + 1;
    }
    proof {
        if n >= RFID_COLUMN_WIDTH {
            assert(padded@ =~= tag@);
        }
    }
    let mut r = String::from_str("\r[Alarme: ");
    r.append(alarm_label(alarm));
    r.append("] [Mouvement: ");
    r.append(if motion { "OUI" } else { "NON" });
    r.append("] [RFID: ");
    r.append(padded.as_str());
    r.append("]");
    r
}

} // verus!
