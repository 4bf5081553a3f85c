//! Properties of the library that span operations or hold of every state.

use vstd::prelude::*;
use crate::arduino_consts::{Events, SecurityState, EVENT_BTN_PRESSED, EVENT_MOTION_DETECTED, EVENT_RFID_READ, has_flag, state_code};
use crate::arduino::{byte_sum, checksum_ok};
use crate::badges::{BadgeRecord, BadgeManager, Badge, BadgeError, grants_access, expired_at, unexpired, fresh_record,
    status_text, NANOS_PER_HOUR, NANOS_PER_MINUTE,
    badge_added, is_listing, enabled_uids, enabled_in_prefix, unique_uids, has_uid};
use crate::controller::{decided_state, state_to_write, badge_accepted, rfid_after_timeout, RFID_TIMEOUT_SECS};
use crate::badge_menu::{BadgeMenu, BadgeTab, FieldModel, edited_form, expiry_in_range, byte_len, MAX_EXPIRY_DIGITS, MAX_NAME_BYTES,
    list_key_effect, remove_scan_effect};
use crate::menu::{Menu, menu_list_effect, menu_poll_effect};
use crate::keys::Key;
use crate::lcd_controller::{LcdModel, LcdPhase, LcdState, InputModel, OutputModel, Next, lcd_step, knob_selection, card_lines,
    default_lines, MENU_TIMEOUT_MS};
use crate::text::{decimal_pad2, all_digits, is_digit, parsed_i64, unsigned_part, digits_value};
use crate::tui_logger::{buffer_after, LOG_CAPACITY};

verus! {

/// A freshly added badge is found under its UID with the record it was
/// given, and the other badges are untouched.
pub proof fn law_added_badge_is_found(m: Map<Seq<char>, BadgeRecord>, uid: Seq<char>, r: BadgeRecord, other: Seq<char>)
    ensures
        m.insert(uid, r).contains_key(uid),
        m.insert(uid, r)[uid] == r,
        other != uid ==> (m.insert(uid, r).contains_key(other) == m.contains_key(other)),
        other != uid && m.contains_key(other) ==> m.insert(uid, r)[other] == m[other],
{
}

/// A permanent badge grants access from the moment it is added, at any
/// instant.
pub proof fn law_new_permanent_badge_grants_access(id: int, uid: Seq<char>, name: Seq<char>, created: i128, now: i128)
    ensures
        badge_accepted(Map::empty().insert(uid, fresh_record(id, uid, name, created, None)), uid, now),
        grants_access(fresh_record(id, uid, name, created, None), now),
{
}

/// A permanent badge added to the registry disarms the alarm when scanned:
/// an armed system seeing no motion in that round, and a ringing one.
pub proof fn law_enrolled_badge_disarms(
    m: Map<Seq<char>, BadgeRecord>,
    id: int,
    uid: Seq<char>,
    name: Seq<char>,
    created: i128,
    now: i128,
    before: SecurityState,
    events: Events,
)
    requires
        has_flag(events, EVENT_RFID_READ),
        before == SecurityState::Triggered
            || (before == SecurityState::Armed && !has_flag(events, EVENT_MOTION_DETECTED)),
    ensures
        decided_state(before, events, badge_accepted(m.insert(uid, fresh_record(id, uid, name, created, None)), uid, now))
            == Some(SecurityState::Disarmed),
{
}

/// Adding a badge without an expiry adds a permanent badge: on success it
/// has no expiry, the registry holds it, and it never expires.
pub proof fn law_add_without_expiry_is_permanent(old: BadgeManager, new: BadgeManager, uid: Seq<char>,
    name: Seq<char>, now: i128, r: Result<Badge, BadgeError>, later: i128)
    requires
        badge_added(old, new, uid, name, None, now, r),
    ensures
        r matches Ok(b) ==> b.expires_at is None && new@.contains_key(uid) && new@[uid] == b@
            && !expired_at(new@[uid], later) && grants_access(new@[uid], later),
{
}

/// A disabled badge never grants access.
pub proof fn law_disabled_badge_refused(m: Map<Seq<char>, BadgeRecord>, uid: Seq<char>, now: i128)
    requires
        m.contains_key(uid),
    ensures
        !badge_accepted(m.insert(uid, BadgeRecord { enabled: false, ..m[uid] }), uid, now),
{
}

/// Disabling then enabling an enabled badge gives the registry back.
pub proof fn law_disable_then_enable_restores(m: Map<Seq<char>, BadgeRecord>, uid: Seq<char>)
    requires
        m.contains_key(uid),
        m[uid].enabled,
    ensures
        ({
            let off = m.insert(uid, BadgeRecord { enabled: false, ..m[uid] });
            off.insert(uid, BadgeRecord { enabled: true, ..off[uid] })
        }) == m,
{
    let off = m.insert(uid, BadgeRecord { enabled: false, ..m[uid] });
    assert(off.insert(uid, BadgeRecord { enabled: true, ..off[uid] }) =~= m);
}

/// A removed badge is not found and never grants access.
pub proof fn law_removed_badge_is_gone(m: Map<Seq<char>, BadgeRecord>, uid: Seq<char>, now: i128)
    ensures
        !m.remove(uid).contains_key(uid),
        !badge_accepted(m.remove(uid), uid, now),
{
}

/// Adding a badge under a new UID and removing it again gives the registry
/// back.
pub proof fn law_add_then_remove_restores(m: Map<Seq<char>, BadgeRecord>, uid: Seq<char>, r: BadgeRecord)
    requires
        !m.contains_key(uid),
    ensures
        m.insert(uid, r).remove(uid) == m,
{
    assert(m.insert(uid, r).remove(uid) =~= m);
}

/// An enabled badge grants access exactly when it has not expired.
pub proof fn law_access_is_enabled_and_unexpired(r: BadgeRecord, now: i128)
    ensures
        grants_access(r, now) == (r.enabled && !expired_at(r, now)),
{
}

/// The expiry clean-up keeps every badge that grants access, and cleaning
/// twice at the same instant is cleaning once.
pub proof fn law_cleanup_keeps_valid_and_is_idempotent(m: Map<Seq<char>, BadgeRecord>, now: i128, uid: Seq<char>)
    ensures
        badge_accepted(m, uid, now) ==> badge_accepted(unexpired(m, now), uid, now),
        unexpired(unexpired(m, now), now) == unexpired(m, now),
        unexpired(m, now).submap_of(m),
{
    assert(unexpired(unexpired(m, now), now) =~= unexpired(m, now));
}

/// The number of enabled records of a sequence.
pub open spec fn count_enabled(s: Seq<BadgeRecord>) -> nat
    decreases s.len(),
{
    if s.len() == 0 {
        0
    } else {
        count_enabled(s.drop_last()) + if s.last().enabled { 1nat } else { 0nat }
    }
}

proof fn lemma_enabled_prefix_count(s: Seq<BadgeRecord>, i: int)
    requires
        unique_uids(s),
        0 <= i <= s.len(),
    ensures
        Set::new(|k: Seq<char>| enabled_in_prefix(s, i, k)).finite(),
        Set::new(|k: Seq<char>| enabled_in_prefix(s, i, k)).len() == count_enabled(s.take(i)),
    decreases i,
{
    let cur = Set::new(|k: Seq<char>| enabled_in_prefix(s, i, k));
    if i == 0 {
        assert(cur =~= Set::<Seq<char>>::empty());
        assert(s.take(0) =~= Seq::<BadgeRecord>::empty());
    } else {
        lemma_enabled_prefix_count(s, i - 1);
        let prev = Set::new(|k: Seq<char>| enabled_in_prefix(s, i - 1, k));
        assert(s.take(i).drop_last() =~= s.take(i - 1));
        assert(s.take(i).last() == s[i - 1]);
        let u = s[i - 1].uid;
        if s[i - 1].enabled {
            assert(!prev.contains(u)) by {
                if prev.contains(u) {
                    let j = choose|j: int| 0 <= j < i - 1 && #[trigger] s[j].uid == u && s[j].enabled;
                    assert(s[j].uid == s[i - 1].uid);
                }
            }
            assert forall|k: Seq<char>| #[trigger] cur.contains(k) == prev.insert(u).contains(k) by {
                if enabled_in_prefix(s, i - 1, k) {
                    let j = choose|j: int| 0 <= j < i - 1 && #[trigger] s[j].uid == k && s[j].enabled;
                    assert(0 <= j < i && s[j].uid == k && s[j].enabled);
                }
                if k == u {
                    assert(s[i - 1].uid == k && s[i - 1].enabled);
                }
                if enabled_in_prefix(s, i, k) && k != u {
                    let j = choose|j: int| 0 <= j < i && #[trigger] s[j].uid == k && s[j].enabled;
                    assert(j < i - 1);
                }
            }
            assert(cur =~= prev.insert(u));
        } else {
            assert forall|k: Seq<char>| #[trigger] cur.contains(k) == prev.contains(k) by {
                if enabled_in_prefix(s, i - 1, k) {
                    let j = choose|j: int| 0 <= j < i - 1 && #[trigger] s[j].uid == k && s[j].enabled;
                    assert(0 <= j < i && s[j].uid == k && s[j].enabled);
                }
                if enabled_in_prefix(s, i, k) {
                    let j = choose|j: int| 0 <= j < i && #[trigger] s[j].uid == k && s[j].enabled;
                    assert(j < i - 1);
                }
            }
            assert(cur =~= prev);
        }
    }
}

/// The enabled count of a registry is the number of enabled rows of its
/// listing, expired badges included, and never exceeds the number of badges.
pub proof fn law_enabled_count_matches_listing(s: Seq<BadgeRecord>, m: Map<Seq<char>, BadgeRecord>)
    requires
        m.dom().finite(),
        is_listing(s, m),
    ensures
        enabled_uids(m).finite(),
        enabled_uids(m).len() == count_enabled(s),
        enabled_uids(m).len() <= m.dom().len(),
        m.dom().len() == s.len(),
{
    lemma_enabled_prefix_count(s, s.len() as int);
    assert(s.take(s.len() as int) =~= s);
    let e = Set::new(|k: Seq<char>| enabled_in_prefix(s, s.len() as int, k));
    assert forall|k: Seq<char>| #[trigger] e.contains(k) == enabled_uids(m).contains(k) by {
        if enabled_in_prefix(s, s.len() as int, k) {
            let j = choose|j: int| 0 <= j < s.len() && #[trigger] s[j].uid == k && s[j].enabled;
            assert(m.contains_key(s[j].uid) && m[s[j].uid] == s[j]);
        }
        if m.contains_key(k) && m[k].enabled {
            assert(has_uid(s, k));
            let j = choose|j: int| 0 <= j < s.len() && #[trigger] s[j].uid == k;
            assert(m.contains_key(s[j].uid) && m[s[j].uid] == s[j]);
            assert(enabled_in_prefix(s, s.len() as int, k));
        }
    }
    assert(e =~= enabled_uids(m));
    vstd::set_lib::lemma_len_subset(enabled_uids(m), m.dom());
}

/// Only the button arms, and only a disarmed system.
pub proof fn law_only_button_arms(before: SecurityState, events: Events, accepted: bool)
    ensures
        decided_state(before, events, accepted) == Some(SecurityState::Armed)
            ==> before == SecurityState::Disarmed && has_flag(events, EVENT_BTN_PRESSED),
        before == SecurityState::Disarmed && has_flag(events, EVENT_BTN_PRESSED)
            ==> decided_state(before, events, accepted) == Some(SecurityState::Armed),
{
}

/// The alarm rings only when motion is seen while armed, and motion while
/// armed always rings it, even when a valid badge is read in the same round.
pub proof fn law_motion_triggers_armed_only(before: SecurityState, events: Events, accepted: bool)
    ensures
        decided_state(before, events, accepted) == Some(SecurityState::Triggered)
            <==> (before == SecurityState::Armed && has_flag(events, EVENT_MOTION_DETECTED)),
{
}

/// Only a badge that grants access disarms, and it disarms an armed system
/// without motion and a ringing one.
pub proof fn law_only_valid_badge_disarms(before: SecurityState, events: Events, accepted: bool)
    ensures
        decided_state(before, events, accepted) == Some(SecurityState::Disarmed)
            ==> accepted && has_flag(events, EVENT_RFID_READ) && before != SecurityState::Disarmed,
        accepted && has_flag(events, EVENT_RFID_READ) && before == SecurityState::Triggered
            ==> decided_state(before, events, accepted) == Some(SecurityState::Disarmed),
        accepted && has_flag(events, EVENT_RFID_READ) && before == SecurityState::Armed
            && !has_flag(events, EVENT_MOTION_DETECTED)
            ==> decided_state(before, events, accepted) == Some(SecurityState::Disarmed),
{
}

/// A disarmed system without a button press decides nothing: motion and
/// badges leave it disarmed.
pub proof fn law_disarmed_stays_without_button(events: Events, accepted: bool)
    requires
        !has_flag(events, EVENT_BTN_PRESSED),
    ensures
        decided_state(SecurityState::Disarmed, events, accepted) is None,
{
}

/// The state written to the Arduino always differs from the state it
/// reported.
pub proof fn law_no_redundant_write(decided: Option<SecurityState>, reported: SecurityState)
    ensures
        state_to_write(decided, reported) matches Some(s) ==> s != reported,
        decided == Some(reported) ==> state_to_write(decided, reported) is None,
{
}

/// Only a decision is written: a state goes to the Arduino only when a rule
/// decided it, so a round where no rule fires writes nothing.
pub proof fn law_only_decisions_are_written(decided: Option<SecurityState>, reported: SecurityState)
    ensures
        state_to_write(decided, reported) matches Some(s) ==> decided == Some(s),
        decided is None ==> state_to_write(decided, reported) is None,
{
}

/// A round without button, motion or scan decides nothing and writes
/// nothing, whatever the state: a ringing alarm keeps ringing.
pub proof fn law_quiet_round_writes_nothing(before: SecurityState, events: Events, accepted: bool, reported: SecurityState)
    requires
        !has_flag(events, EVENT_BTN_PRESSED),
        !has_flag(events, EVENT_MOTION_DETECTED),
        !has_flag(events, EVENT_RFID_READ),
    ensures
        decided_state(before, events, accepted) is None,
        state_to_write(decided_state(before, events, accepted), reported) is None,
{
}

/// A card screen left idle for more than the menu timeout closes when the
/// next round starts without a scan: the panel is back on the state screen,
/// which it draws, and the registry is untouched. Without the timeout the
/// card screen stays open.
pub proof fn law_card_screen_times_out(m: LcdModel, now_ms: u64, instant: i128, alarm: SecurityState, reg: BadgeManager)
    requires
        m.state == LcdState::AddCard || m.state == LcdState::RemoveCard,
        m.text == (Some(card_lines(m.state).0), Some(card_lines(m.state).1)),
        now_ms >= m.last_activity,
    ensures
        ({
            let (n, o, reg2) = lcd_step(m, InputModel::Start { now_ms, instant, alarm, last_rfid: None }, reg);
            &&& reg2 == reg@
            &&& now_ms - m.last_activity > MENU_TIMEOUT_MS ==> n.state == LcdState::Default
                && o == OutputModel::Show { line1: default_lines(alarm).0, line2: Some(default_lines(alarm).1) }
            &&& now_ms - m.last_activity <= MENU_TIMEOUT_MS ==> n.state == m.state && o == OutputModel::Done
        }),
{
    reveal_strlit("Scan RFID card");
    reveal_strlit("Use btn for menu");
    reveal_strlit("Scan to disarm");
    assert(card_lines(m.state).1 != default_lines(alarm).1) by {
        assert(card_lines(m.state).1[5] != default_lines(alarm).1[5]);
    }
}

/// The same when the card screen was still being drawn: once drawn, a round
/// without a scan closes the screen after more than the menu timeout.
pub proof fn law_card_screen_times_out_after_drawing(m: LcdModel, now_ms: u64, reg: BadgeManager)
    requires
        m.state == LcdState::AddCard || m.state == LcdState::RemoveCard,
        m.phase == LcdPhase::Showing(Next::CardCheck),
        m.scanned is None,
        now_ms >= m.last_activity,
    ensures
        ({
            let (n, o, reg2) = lcd_step(m, InputModel::Shown { now_ms }, reg);
            &&& reg2 == reg@
            &&& now_ms - m.last_activity > MENU_TIMEOUT_MS ==> n.state == LcdState::Default
            &&& now_ms - m.last_activity <= MENU_TIMEOUT_MS ==> n.state == m.state && o == OutputModel::Done
        }),
{
}

/// `D` on the terminal's badge list deletes the badge of the selected row,
/// and only that badge; it fails, changing nothing, when that badge is gone.
pub proof fn law_delete_removes_selected_row(old: Menu, new: Menu, c: char,
    reg: Map<Seq<char>, BadgeRecord>, reg2: Map<Seq<char>, BadgeRecord>, now: i128, ok: bool, k: Seq<char>)
    requires
        c == 'd' || c == 'D',
        old.selected_item < old.badges_list@.len(),
        menu_list_effect(old, new, Key::Char(c), reg, reg2, now, ok),
    ensures
        ({
            let selected = old.badges_list@[old.selected_item as int].0@;
            &&& ok <==> reg.contains_key(selected)
            &&& !reg2.contains_key(selected)
            &&& k != selected ==> (reg2.contains_key(k) == reg.contains_key(k))
            &&& k != selected && reg2.contains_key(k) ==> reg2[k] == reg[k]
        }),
{
}

/// The same for the badge tab of the tabbed interface.
pub proof fn law_badge_tab_delete_removes_selected_row(old: BadgeMenu, new: BadgeMenu, c: char,
    reg: Map<Seq<char>, BadgeRecord>, reg2: Map<Seq<char>, BadgeRecord>, now: i128, ok: bool, k: Seq<char>)
    requires
        c == 'd' || c == 'D',
        old.selected_item < old.badges_list@.len(),
        list_key_effect(old, new, Key::Char(c), reg, reg2, now, ok),
    ensures
        ({
            let selected = old.badges_list@[old.selected_item as int].uid@;
            &&& ok <==> reg.contains_key(selected)
            &&& !reg2.contains_key(selected)
            &&& k != selected ==> (reg2.contains_key(k) == reg.contains_key(k))
            &&& k != selected && reg2.contains_key(k) ==> reg2[k] == reg[k]
        }),
{
}

/// On the remove screen a newly scanned badge is deleted, and only it; the
/// message names it, or says it is unknown.
pub proof fn law_remove_scan_deletes_badge(old: Menu, new: Menu, u: Seq<char>,
    reg: Map<Seq<char>, BadgeRecord>, reg2: Map<Seq<char>, BadgeRecord>, k: Seq<char>)
    requires
        old.badge_tab == BadgeTab::RemoveBadge,
        old.last_badge_uid matches Some(l) ==> l@ != u,
        menu_poll_effect(old, new, Some(u), reg, reg2),
    ensures
        !reg2.contains_key(u),
        k != u ==> (reg2.contains_key(k) == reg.contains_key(k)),
        k != u && reg2.contains_key(k) ==> reg2[k] == reg[k],
        new.message matches Some(t) && (reg.contains_key(u) ==> t@ == "Badge removed: "@ + reg[u].name),
{
}

/// The same for the badge tab of the tabbed interface.
pub proof fn law_badge_tab_remove_scan_deletes_badge(old: BadgeMenu, new: BadgeMenu, u: Seq<char>,
    reg: Map<Seq<char>, BadgeRecord>, reg2: Map<Seq<char>, BadgeRecord>, k: Seq<char>)
    requires
        old.last_badge_uid matches Some(l) ==> l@ != u,
        remove_scan_effect(old, new, Some(u), reg, reg2),
    ensures
        !reg2.contains_key(u),
        k != u ==> (reg2.contains_key(k) == reg.contains_key(k)),
        k != u && reg2.contains_key(k) ==> reg2[k] == reg[k],
        new.message matches Some(t) && (reg.contains_key(u) ==> t@ == "Badge removed: "@ + reg[u].name),
{
}

/// A temporary badge's status shows the time left as whole hours and the
/// minutes past them: for `h` hours and `m` minutes (under 60) with the time
/// left at least `h` hours `m` minutes and less than one minute more, the
/// line is `TEMP (hh mm)` with `h` in full, however many hours that is.
pub proof fn law_temp_status_counts_time_left(r: BadgeRecord, now: i128, e: i128, h: nat, m: nat)
    requires
        r.enabled,
        r.expires_at == Some(e),
        now <= e,
        m < 60,
        h * NANOS_PER_HOUR + m * NANOS_PER_MINUTE <= e - now,
        e - now < h * NANOS_PER_HOUR + (m + 1) * NANOS_PER_MINUTE,
    ensures
        status_text(r, now) == "TEMP ("@ + decimal_pad2(h) + "h "@ + decimal_pad2(m) + "m)"@,
{
    let left = (e - now) as nat;
    assert(left / 60_000_000_000 == 60 * h + m) by (nonlinear_arith)
        requires
            h * 3_600_000_000_000 + m * 60_000_000_000 <= left,
            left < h * 3_600_000_000_000 + (m + 1) * 60_000_000_000;
    assert(left / 3_600_000_000_000 == h) by (nonlinear_arith)
        requires
            m < 60,
            h * 3_600_000_000_000 + m * 60_000_000_000 <= left,
            left < h * 3_600_000_000_000 + (m + 1) * 60_000_000_000;
    assert((60 * h + m) % 60 == m) by (nonlinear_arith) requires m < 60;
}

/// A scanned UID is forgotten once more than the timeout has passed, and
/// kept until then.
pub proof fn law_rfid_timeout(last: Seq<char>, at: u64, now: u64)
    requires
        now >= at,
    ensures
        now - at > RFID_TIMEOUT_SECS ==> rfid_after_timeout(Some(last), at, now) is None,
        now - at <= RFID_TIMEOUT_SECS ==> rfid_after_timeout(Some(last), at, now) == Some(last),
{
}

/// A response made of values followed by their checksum is accepted.
pub proof fn law_checksummed_response_accepted(values: Seq<u8>)
    ensures
        checksum_ok(values.push((byte_sum(values) % 256) as u8), values.len() as int),
{
    assert(values.push((byte_sum(values) % 256) as u8).take(values.len() as int) =~= values);
}

/// Every security state's code is read back as that state.
pub proof fn law_state_code_roundtrip(s: SecurityState)
    ensures
        state_code(s) <= 2,
        forall|t: SecurityState| state_code(t) == state_code(s) ==> t == s,
{
}

/// The log buffer never holds more than its capacity, and the newest line
/// is last.
pub proof fn law_log_buffer_bounded(buf: Seq<Seq<char>>, line: Seq<char>)
    requires
        buf.len() <= LOG_CAPACITY,
    ensures
        buffer_after(buf, line).len() <= LOG_CAPACITY,
        buffer_after(buf, line).last() == line,
{
}

/// Up and Down on the list move the selection one row, stopping at the
/// first and the last row (the first when the list is empty), and change
/// nothing else: the selection stays on a row.
pub proof fn law_list_selection_in_bounds(old: Menu, new: Menu, key: Key,
    reg: Map<Seq<char>, BadgeRecord>, reg2: Map<Seq<char>, BadgeRecord>, now: i128, ok: bool)
    requires
        key == Key::Up || key == Key::Down,
        menu_list_effect(old, new, key, reg, reg2, now, ok),
        old.selected_item < (if old.max_items >= 1 { old.max_items } else { 1 }),
    ensures
        ok,
        reg2 == reg,
        key == Key::Up ==> new.selected_item == (if old.selected_item > 0 { old.selected_item - 1 } else { 0 }),
        key == Key::Down ==> new.selected_item == (if old.selected_item + 1 < old.max_items {
            old.selected_item + 1
        } else if old.max_items >= 1 {
            old.max_items - 1
        } else {
            0
        }),
        new == (Menu { selected_item: new.selected_item, ..old }),
        new.selected_item < (if new.max_items >= 1 { new.max_items } else { 1 }),
{
}

/// Turning the knob in the menu selects the entry its level points at:
/// `level * 2 / 1023`, the float formula `level / 1023.0 * 2.0` truncated,
/// and at most the last entry, so the selection always names an entry.
pub proof fn law_knob_selects_entry(m: LcdModel, now_ms: u64, level: u16, reg: BadgeManager)
    requires
        m.phase == LcdPhase::AwaitRotary,
        0 <= m.selected < 2,
    ensures
        knob_selection(level, 2) == (level as int * 2) / 1023,
        lcd_step(m, InputModel::Rotary { now_ms, level }, reg).0.selected
            == (if knob_selection(level, 2) < 1 { knob_selection(level, 2) } else { 1 }),
        0 <= lcd_step(m, InputModel::Rotary { now_ms, level }, reg).0.selected < 2,
        lcd_step(m, InputModel::Rotary { now_ms, level }, reg).2 == reg@,
{
    let k = knob_selection(level, 2);
    assert(0 <= k) by (nonlinear_arith) requires k == (level as int * 2) / 1023, level >= 0;
}

/// Edits keep the validity field a string of at most four digits, so it can
/// always be turned into a number of days.
pub proof fn law_form_edits_keep_validity_numeric(f: FieldModel, key: Key)
    requires
        all_digits(f.expiry_days),
        f.expiry_days.len() <= MAX_EXPIRY_DIGITS,
    ensures
        edited_form(f, key) matches Some(g) ==> all_digits(g.expiry_days) && g.expiry_days.len() <= MAX_EXPIRY_DIGITS,
        expiry_in_range(f.expiry_days),
{
    lemma_digits_ascii(f.expiry_days);
    if let Some(g) = edited_form(f, key) {
        if let Key::Char(c) = key {
            if f.selected_field == 1 && '0' <= c <= '9' && byte_len(f.expiry_days) < MAX_EXPIRY_DIGITS {
                assert(g.expiry_days == f.expiry_days.push(c));
                assert forall|i: int| 0 <= i < g.expiry_days.len() implies #[trigger] is_digit(g.expiry_days[i]) by {
                    if i < f.expiry_days.len() {
                        assert(g.expiry_days[i] == f.expiry_days[i]);
                    }
                }
            }
        } else if key == Key::Backspace && f.selected_field == 1 && f.expiry_days.len() > 0 {
            assert forall|i: int| 0 <= i < g.expiry_days.len() implies #[trigger] is_digit(g.expiry_days[i]) by {
                assert(g.expiry_days[i] == f.expiry_days[i]);
            }
        }
    }
    lemma_small_digits_in_range(f.expiry_days);
}

/// Edits keep the form's name within 30 characters and leave its UID alone.
pub proof fn law_form_edits_keep_name_short(f: FieldModel, key: Key)
    requires
        f.name.len() <= MAX_NAME_BYTES,
    ensures
        edited_form(f, key) matches Some(g) ==> g.name.len() <= MAX_NAME_BYTES && g.uid == f.uid,
{
    if let Some(g) = edited_form(f, key) {
        if let Key::Char(c) = key {
            if f.selected_field == 0 && byte_len(f.name) < MAX_NAME_BYTES {
                lemma_utf8_len_bounds(f.name);
                assert(g.name == f.name.push(c));
            }
        }
    }
}

/// Each character takes one to four bytes in UTF-8.
proof fn lemma_utf8_len_bounds(s: Seq<char>)
    ensures
        s.len() <= vstd::utf8::encode_utf8(s).len() <= 4 * s.len(),
    decreases s.len(),
{
    if s.len() > 0 {
        lemma_utf8_len_bounds(s.drop_first());
        let e = vstd::utf8::encode_scalar(s[0] as u32);
        assert(1 <= e.len() <= 4);
    }
}

proof fn lemma_digits_ascii(s: Seq<char>)
    requires
        all_digits(s),
    ensures
        vstd::utf8::encode_utf8(s).len() == s.len(),
{
    assert(vstd::utf8::is_ascii_chars(s)) by {
        assert forall|i: int| 0 <= i < s.len() implies '\0' <= #[trigger] s[i] <= '\u{7f}' by {
            assert(is_digit(s[i]));
        }
    }
    vstd::utf8::is_ascii_chars_encode_utf8(s);
}

spec fn pow10(n: nat) -> int
    decreases n,
{
    if n == 0 { 1 } else { 10 * pow10((n - 1) as nat) }
}

proof fn lemma_digits_bound(s: Seq<char>)
    requires
        all_digits(s),
    ensures
        0 <= digits_value(s) < pow10(s.len()),
    decreases s.len(),
{
    if s.len() > 0 {
        let p = s.drop_last();
        assert(all_digits(p)) by {
            assert forall|i: int| 0 <= i < p.len() implies #[trigger] is_digit(p[i]) by {
                assert(p[i] == s[i]);
            }
        }
        lemma_digits_bound(p);
        assert(is_digit(s[s.len() - 1]));
    }
}

proof fn lemma_pow10_monotone(a: nat, b: nat)
    requires
        a <= b,
    ensures
        1 <= pow10(a) <= pow10(b),
    decreases b,
{
    if b > a {
        lemma_pow10_monotone(a, (b - 1) as nat);
    } else if a > 0 {
        lemma_pow10_monotone((a - 1) as nat, (a - 1) as nat);
    }
}

proof fn lemma_small_digits_in_range(s: Seq<char>)
    requires
        all_digits(s),
        s.len() <= 4,
    ensures
        expiry_in_range(s),
{
    if s.len() > 0 {
        assert(unsigned_part(s) == s) by {
            assert(is_digit(s[0]));
        }
        lemma_digits_bound(s);
        lemma_pow10_monotone(s.len(), 4);
        reveal_with_fuel(pow10, 5);
        assert(pow10(4) == 10000);
    }
}

} // verus!
