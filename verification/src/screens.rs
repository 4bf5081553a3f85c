//! The text the terminal interface shows: the alarm state in the status bar,
//! the rows of the badge list, and the fields of the badge form.

use vstd::prelude::*;
use crate::arduino_consts::SecurityState;
use crate::badges::Badge;
use crate::badge_menu::{BadgeField, BadgeMenu};
use crate::menu::Menu;
use crate::datetime::{instant_date, ymd_text, in_chrono_range, secs_of};
use crate::text::{push_char, push_decimal, decimal};

verus! {

/// The status-bar label of a security state.
pub open spec fn state_label_text(s: SecurityState) -> Seq<char> {
    match s {
        SecurityState::Disarmed => "🟢 DISARMED"@,
        SecurityState::Armed => "🛑 ARMED"@,
        SecurityState::Triggered => "🚨 ALARM"@,
    }
}

/// The status-bar label of a security state.
pub fn state_label(s: SecurityState) -> (r: &'static str)
    ensures
        r@ == state_label_text(s),
{
    match s {
        SecurityState::Disarmed => "🟢 DISARMED",
        SecurityState::Armed => "🛑 ARMED",
        SecurityState::Triggered => "🚨 ALARM",
    }
}

/// The status-bar text of the last scanned UID.
pub open spec fn last_badge_text(last: Option<Seq<char>>) -> Seq<char> {
    match last {
        Some(u) => u,
        None => "None"@,
    }
}

/// The status-bar text of the last scanned UID: the UID, or `None`.
pub fn last_badge_label<'a>(last: Option<&'a str>) -> (r: &'a str)
    ensures
        r@ == last_badge_text(match last { Some(u) => Some(u@), None => None }),
{
    match last {
        Some(u) => u,
        None => "None",
    }
}

/// The marker in front of a list row or a form field.
pub open spec fn marker_text(selected: bool) -> Seq<char> {
    if selected { "▶ "@ } else { "  "@ }
}

/// The marker in front of a list row or a form field: an arrow when selected.
pub fn selection_marker(selected: bool) -> (r: &'static str)
    ensures
        r@ == marker_text(selected),
{
    if selected { "▶ " } else { "  " }
}

/// A form field's value as shown: followed by a cursor when selected.
pub open spec fn field_value_text(value: Seq<char>, selected: bool) -> Seq<char> {
    if selected { value.push('_') } else { value }
}

/// A form field's value as shown: followed by a cursor when selected.
pub fn field_value(value: &str, selected: bool) -> (r: String)
    ensures
        r@ == field_value_text(value@, selected),
{
    let mut r = String::from_str(value);
    if selected {
        push_char(&mut r, '_');
    }
    r
}

/// The value the validity field shows before its cursor is added.
pub open spec fn expiry_display_text(days: Seq<char>, selected: bool) -> Seq<char> {
    if days.len() == 0 {
        "(leave empty for no expiry)"@
    } else if selected {
        days + "_ days"@
    } else {
        days + " days"@
    }
}

/// The value the validity field of the form shows before its cursor is
/// added: a hint when empty, else the number of days.
pub fn expiry_display(f: &BadgeField) -> (r: String)
    ensures
        r@ == expiry_display_text(f.expiry_days@, f.selected_field == 1),
{
    if f.expiry_days.as_str().is_empty() {
        String::from_str("(leave empty for no expiry)")
    } else {
        let mut r = f.expiry_days.clone();
        if f.selected_field == 1 {
            r.append("_ days");
        } else {
            r.append(" days");
        }
        r
    }
}

/// `text` is `prefix`, the date of instant `t` and a closing bracket; the
/// date reads `?` for an instant chrono cannot represent.
pub open spec fn date_shown(text: Seq<char>, prefix: Seq<char>, t: i128) -> bool {
    if in_chrono_range(secs_of(t as int)) {
        text == prefix + ymd_text(secs_of(t as int) as i64) + "]"@
    } else {
        text == prefix + "?]"@
    }
}

fn dated(prefix: &str, t: i128) -> (r: String)
    ensures
        date_shown(r@, prefix@, t),
{
    let mut r = String::from_str(prefix);
    match instant_date(t) {
        Some(d) => {
            r.append(d.as_str());
            r.append("]");
        },
        None => {
            r.append("?]");
        },
    }
    r
}

/// The text parts of one row of the badge list.
pub struct BadgeLine {
    pub marker: &'static str,
    pub status: &'static str,
    pub name: String,
    pub uid: String,
    pub expiry: String,
    pub created: String,
    pub last_used: String,
}

/// The enabled mark of a badge row.
pub open spec fn status_mark_text(enabled: bool) -> Seq<char> {
    if enabled { " ✓"@ } else { " ✗"@ }
}

/// The row of the badge list for `b`: marker, enabled mark, name, UID in
/// brackets, expiry, creation and last-use dates.
pub fn badge_line(b: &Badge, selected: bool) -> (r: BadgeLine)
    ensures
        r.marker@ == marker_text(selected),
        r.status@ == status_mark_text(b.enabled),
        r.name@ == b.name@,
        r.uid@ == "("@ + b.uid@ + ")"@,
        match b.expires_at {
            Some(t) => date_shown(r.expiry@, "[Expires: "@, t),
            None => r.expiry@ == "[No Expiry]"@,
        },
        date_shown(r.created@, "[Created: "@, b.created_at),
        match b.last_used {
            Some(t) => date_shown(r.last_used@, "[Last Used: "@, t),
            None => r.last_used@ == "[Never Used]"@,
        },
{
    let mut uid = String::from_str("(");
    uid.append(b.uid.as_str());
    uid.append(")");
    let expiry = match b.expires_at {
        Some(t) => dated("[Expires: ", t),
        None => String::from_str("[No Expiry]"),
    };
    let last_used = match b.last_used {
        Some(t) => dated("[Last Used: ", t),
        None => String::from_str("[Never Used]"),
    };
    BadgeLine {
        marker: selection_marker(selected),
        status: if b.enabled { " ✓" } else { " ✗" },
        name: b.name.clone(),
        uid: uid,
        expiry: expiry,
        created: dated("[Created: ", b.created_at),
        last_used: last_used,
    }
}

/// The text parts of one row of the two-tab menu's badge list.
pub struct PairLine {
    pub marker: &'static str,
    pub status: &'static str,
    pub name: String,
    pub uid: String,
}

/// Row `idx` of the two-tab menu's badge list: marker, the mark of whether
/// the badge grants access (a cross when no status is known), name, and UID
/// in brackets.
pub fn pair_line(m: &Menu, idx: usize) -> (r: PairLine)
    requires
        idx < m.badges_list@.len(),
    ensures
        r.marker@ == marker_text(idx == m.selected_item),
        r.status@ == status_mark_text(idx < m.badge_statuses@.len() && m.badge_statuses@[idx as int]),
        r.name@ == m.badges_list@[idx as int].1@,
        r.uid@ == "("@ + m.badges_list@[idx as int].0@ + ")"@,
{
    let valid = idx < m.badge_statuses.len() && m.badge_statuses[idx];
    let mut uid = String::from_str("(");
    uid.append(m.badges_list[idx].0.as_str());
    uid.append(")");
    PairLine {
        marker: selection_marker(idx == m.selected_item),
        status: if valid { " ✓" } else { " ✗" },
        name: m.badges_list[idx].1.clone(),
        uid: uid,
    }
}

/// The title of the badge list: its number of badges.
pub fn badge_list_title(n: usize) -> (r: String)
    ensures
        r@ == " Badges ("@ + decimal(n as nat) + ") "@,
{
    let mut r = String::from_str(" Badges (");
    push_decimal(&mut r, n as u128);
    r.append(") ");
    r
}

/// The message of the remove screen.
pub open spec fn remove_message_text(message: Option<Seq<char>>) -> Seq<char> {
    match message {
        Some(m) => m,
        None => "Place badge near scanner..."@,
    }
}

/// The message of the remove screen: the outcome of the last scan, or the
/// invitation to scan.
pub fn remove_screen_message(m: &BadgeMenu) -> (r: String)
    ensures
        r@ == remove_message_text(match m.message { Some(t) => Some(t@), None => None }),
{
    match &m.message {
        Some(t) => t.clone(),
        None => String::from_str("Place badge near scanner..."),
    }
}

} // verus!
