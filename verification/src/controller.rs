//! The alarm's decision logic: one polling round turns what was read from the
//! Arduino into the next security state and the actions to carry out.
//!
//! A round starts from the security state the controller last knew. The
//! button arms a disarmed system; a badge that grants access disarms an armed
//! or ringing system; motion triggers an armed system, and wins over a badge
//! read in the same round. The new state is written only when it differs from
//! the state the Arduino reported in this round.

use vstd::prelude::*;
use crate::arduino_consts::{Events, SecurityState, EVENT_BTN_PRESSED, EVENT_MOTION_DETECTED, EVENT_RFID_READ, has_flag};
use crate::badges::{BadgeManager, BadgeRecord, BadgeError, grants_access, unexpired};

verus! {

/// Seconds after which the last scanned UID is forgotten.
pub const RFID_TIMEOUT_SECS: u64 = 5;

/// What the gateway read from the Arduino for one polling round.
pub struct PollInput {
    /// The security state in the status register.
    pub hw_state: SecurityState,
    /// The pending events.
    pub events: Events,
    /// The scanned UID, read only when `events` holds the RFID flag; `None`
    /// when that read failed.
    pub rfid_uid: Option<String>,
    /// Seconds since the Unix epoch, from the system clock.
    pub now_secs: u64,
    /// The same instant for the badge registry (nanoseconds since the epoch).
    pub now_instant: i128,
}

/// What the gateway must do after a polling round, and what it may log.
pub struct PollActions {
    /// Post the intrusion alert.
    pub send_alert: bool,
    /// Write this state into the status register.
    pub write_state: Option<SecurityState>,
    /// The button armed the system.
    pub armed_by_button: bool,
    /// The name of the badge that disarmed the system.
    pub disarmed_by: Option<String>,
    /// A scanned UID that was refused.
    pub denied_uid: Option<String>,
}

/// Why a polling round stopped early.
#[derive(Debug, PartialEq, Eq, Structural, Clone, Copy)]
pub enum PollError {
    /// The RFID flag was set but the UID could not be read.
    RfidUnreadable,
}

/// The mathematical state of the controller.
pub struct ControllerState {
    pub state: SecurityState,
    pub last_events: Events,
    pub last_rfid: Option<Seq<char>>,
    pub last_rfid_time: u64,
    pub badges: Map<Seq<char>, BadgeRecord>,
    pub badges_rev: u64,
}

/// The gateway's alarm controller.
pub struct AlarmController {
    pub current_state: SecurityState,
    last_events: Events,
    last_rfid: Option<String>,
    last_rfid_time: u64,
    badge_manager: BadgeManager,
}

impl View for AlarmController {
    type V = ControllerState;

    closed spec fn view(&self) -> ControllerState {
        ControllerState {
            state: self.current_state,
            last_events: self.last_events,
            last_rfid: match self.last_rfid { Some(s) => Some(s@), None => None },
            last_rfid_time: self.last_rfid_time,
            badges: self.badge_manager@,
            badges_rev: self.badge_manager.rev(),
        }
    }
}

/// The scanned UID is a badge that grants access at `now`.
pub open spec fn badge_accepted(badges: Map<Seq<char>, BadgeRecord>, uid: Seq<char>, now: i128) -> bool {
    badges.contains_key(uid) && grants_access(badges[uid], now)
}

/// The state a round decides on, from the state known before the round, the
/// events, and whether a scanned badge was accepted; `None` when no rule
/// fires. Later rules win: button, then badge, then motion.
pub open spec fn decided_state(before: SecurityState, events: Events, accepted: bool) -> Option<SecurityState> {
    let by_button = if has_flag(events, EVENT_BTN_PRESSED) && before == SecurityState::Disarmed {
        Some(SecurityState::Armed)
    } else {
        None
    };
    let by_badge = if has_flag(events, EVENT_RFID_READ) && accepted && before != SecurityState::Disarmed {
        Some(SecurityState::Disarmed)
    } else {
        by_button
    };
    if before == SecurityState::Armed && has_flag(events, EVENT_MOTION_DETECTED) {
        Some(SecurityState::Triggered)
    } else {
        by_badge
    }
}

/// The last scanned UID after the timeout check at `now`.
pub open spec fn rfid_after_timeout(last: Option<Seq<char>>, last_time: u64, now: u64) -> Option<Seq<char>> {
    if last is Some && now - last_time > RFID_TIMEOUT_SECS {
        None
    } else {
        last
    }
}

/// The state written at the end of a round: the decided state when it
/// differs from the state the Arduino reported.
pub open spec fn state_to_write(decided: Option<SecurityState>, reported: SecurityState) -> Option<SecurityState> {
    match decided {
        Some(s) => if s != reported { Some(s) } else { None },
        None => None,
    }
}

impl AlarmController {
    /// The badge registry of the controller.
    pub closed spec fn registry(&self) -> BadgeManager {
        self.badge_manager
    }

    /// The registry's table and counter are those the controller's view shows.
    pub proof fn lemma_registry(&self)
        ensures
            self.registry()@ == self@.badges,
            self.registry().rev() == self@.badges_rev,
            self.wf() == self.registry().wf(),
    {
    }

    /// The invariant of the controller: its registry is well formed.
    pub closed spec fn wf(&self) -> bool {
        self.badge_manager.wf()
    }

    /// A controller in the state the Arduino reports, with the given badge
    /// registry, from which expired temporary badges are deleted first.
    pub fn new(initial_state: SecurityState, badge_manager: BadgeManager) -> (r: Result<AlarmController, BadgeError>)
        requires
            badge_manager.wf(),
        ensures
            r matches Ok(c) && c.wf() && c@.state == initial_state
                && c@.last_events.spec_bits() == 0 && c@.last_rfid is None && c@.last_rfid_time == 0
                && (exists|t: i128| c@.badges == #[trigger] unexpired(badge_manager@, t))
                && c@.badges.submap_of(badge_manager@)
                && (forall|k: Seq<char>| #[trigger] badge_manager@.contains_key(k)
                    && badge_manager@[k].expires_at is None ==> c@.badges.contains_key(k)),
    {
        let mut badge_manager = badge_manager;
        let _ = badge_manager.cleanup_expired_badges();
        Ok(AlarmController {
            current_state: initial_state,
            last_events: Events::empty(),
            last_rfid: None,
            last_rfid_time: 0,
            badge_manager: badge_manager,
        })
    }

    /// A controller in the given state with the given registry, as it is
    /// before any round.
    pub fn with_badges(initial_state: SecurityState, badge_manager: BadgeManager) -> (c: AlarmController)
        requires
            badge_manager.wf(),
        ensures
            c.wf(),
            c@.state == initial_state,
            c@.last_events.spec_bits() == 0,
            c@.last_rfid is None,
            c@.last_rfid_time == 0,
            c@.badges == badge_manager@,
    {
        AlarmController {
            current_state: initial_state,
            last_events: Events::empty(),
            last_rfid: None,
            last_rfid_time: 0,
            badge_manager: badge_manager,
        }
    }

    /// Whether a round must read the RFID registers: the RFID flag is set.
    pub fn needs_rfid_read(events: Events) -> (r: bool)
        ensures
            r == has_flag(events, EVENT_RFID_READ),
    {
        events.contains(Events::rfid_read())
    }

    /// One polling round.
    pub fn poll(&mut self, input: PollInput) -> (r: Result<PollActions, PollError>)
        requires
            old(self).wf(),
            old(self)@.last_rfid is Some ==> input.now_secs >= old(self)@.last_rfid_time,
        ensures
            final(self).wf(),
            final(self)@.last_events == input.events,
            has_flag(input.events, EVENT_RFID_READ) && input.rfid_uid is None <==> r is Err,
            r is Err ==> final(self)@ == (ControllerState {
                state: input.hw_state,
                last_events: input.events,
                last_rfid: rfid_after_timeout(old(self)@.last_rfid, old(self)@.last_rfid_time, input.now_secs),
                ..old(self)@
            }),
            !has_flag(input.events, EVENT_RFID_READ) ==> final(self)@.last_rfid
                == rfid_after_timeout(old(self)@.last_rfid, old(self)@.last_rfid_time, input.now_secs)
                && final(self)@.last_rfid_time == old(self)@.last_rfid_time
                && final(self)@.badges == old(self)@.badges
                && final(self)@.badges_rev == old(self)@.badges_rev,
            r matches Ok(a) ==> ({
                let accepted = match input.rfid_uid {
                    Some(u) => has_flag(input.events, EVENT_RFID_READ) && badge_accepted(old(self)@.badges, u@, input.now_instant),
                    None => false,
                };
                let decided = decided_state(old(self)@.state, input.events, accepted);
                &&& a.write_state == state_to_write(decided, input.hw_state)
                &&& (a.write_state matches Some(s) ==> decided == Some(s) && s != input.hw_state)
                &&& (decided is None ==> a.write_state is None && final(self)@.state == input.hw_state)
                &&& final(self)@.state == (match a.write_state { Some(s) => s, None => input.hw_state })
                &&& a.send_alert == (old(self)@.state == SecurityState::Armed && has_flag(input.events, EVENT_MOTION_DETECTED))
                &&& a.armed_by_button == (has_flag(input.events, EVENT_BTN_PRESSED) && old(self)@.state == SecurityState::Disarmed)
            }),
            r matches Ok(a) ==> (match input.rfid_uid {
                Some(u) => has_flag(input.events, EVENT_RFID_READ) ==> ({
                    let accepted = badge_accepted(old(self)@.badges, u@, input.now_instant);
                    &&& final(self)@.last_rfid == Some(u@)
                    &&& final(self)@.last_rfid_time == input.now_secs
                    &&& (a.denied_uid matches Some(d) <==> !accepted) && (a.denied_uid matches Some(d) ==> d@ == u@)
                    &&& (accepted && old(self)@.state != SecurityState::Disarmed) ==> (
                        final(self)@.badges == old(self)@.badges.insert(u@, BadgeRecord {
                            last_used: Some(input.now_instant),
                            ..old(self)@.badges[u@]
                        })
                        && (a.disarmed_by matches Some(n) && n@ == old(self)@.badges[u@].name))
                    &&& !(accepted && old(self)@.state != SecurityState::Disarmed) ==> (
                        final(self)@.badges == old(self)@.badges && final(self)@.badges_rev == old(self)@.badges_rev
                        && a.disarmed_by is None)
                }),
                None => true,
            }),
            r matches Ok(a) ==> (!has_flag(input.events, EVENT_RFID_READ) ==> a.disarmed_by is None && a.denied_uid is None),
    {
        let old_state = self.current_state;
        self.current_state = input.hw_state;
        self.last_events = input.events;
        let mut new_state: Option<SecurityState> = None;

        if self.last_rfid.is_some() {
            if input.now_secs - self.last_rfid_time > RFID_TIMEOUT_SECS {
                self.last_rfid = None;
            }
        }

        let mut armed_by_button = false;
        if input.events.contains(Events::btn_pressed()) && old_state == SecurityState::Disarmed {
            new_state = Some(SecurityState::Armed);
            armed_by_button = true;
        }

        let mut disarmed_by: Option<String> = None;
        let mut denied_uid: Option<String> = None;
        if input.events.contains(Events::rfid_read()) {
            let uid = match input.rfid_uid {
                Some(u) => u,
                None => {
                    return Err(PollError::RfidUnreadable);
                },
            };
            self.last_rfid = Some(uid.clone());
            self.last_rfid_time = input.now_secs;
            if self.badge_manager.is_valid_badge_at(uid.as_str(), input.now_instant) {
                if old_state != SecurityState::Disarmed {
                    if let Ok(Some(badge)) = self.badge_manager.get_badge(uid.as_str()) {
                        disarmed_by = Some(badge.name);
                        let _ = self.badge_manager.update_last_used_at(uid.as_str(), input.now_instant);
                    }
                    new_state = Some(SecurityState::Disarmed);
                }
            } else {
                denied_uid = Some(uid);
            }
        }

        let send_alert = old_state == SecurityState::Armed && input.events.contains(Events::motion_detected());
        if send_alert {
            new_state = Some(SecurityState::Triggered);
        }

        let mut write_state: Option<SecurityState> = None;
        if let Some(state) = new_state {
            if state != self.current_state {
                self.current_state = state;
                write_state = Some(state);
            }
        }

        Ok(PollActions {
            send_alert: send_alert,
            write_state: write_state,
            armed_by_button: armed_by_button,
            disarmed_by: disarmed_by,
            denied_uid: denied_uid,
        })
    }

    /// The last scanned UID, if it has not timed out.
    pub fn last_rfid(&self) -> (r: Option<&str>)
        ensures
            r matches Some(s) ==> self@.last_rfid == Some(s@),
            r is None <==> self@.last_rfid is None,
    {
        match &self.last_rfid {
            Some(s) => Some(s.as_str()),
            None => None,
        }
    }

    /// The last scanned UID, if it has not timed out.
    pub fn get_last_rfid(&self) -> (r: Option<&str>)
        ensures
            r matches Some(s) ==> self@.last_rfid == Some(s@),
            r is None <==> self@.last_rfid is None,
    {
        self.last_rfid()
    }

    /// The badge registry.
    pub fn badge_manager(&self) -> (r: &BadgeManager)
        requires
            self.wf(),
        ensures
            r.wf(),
            r@ == self@.badges,
            r.rev() == self@.badges_rev,
    {
        &self.badge_manager
    }

    /// The badge registry, for changes.
    pub fn badge_manager_mut(&mut self) -> (r: &mut BadgeManager)
        requires
            old(self).wf(),
        ensures
            r.wf(),
            r@ == old(self)@.badges,
            r.rev() == old(self)@.badges_rev,
            *r == old(self).registry(),
            final(self).registry() == *final(r),
            final(self).wf() == final(r).wf(),
            final(self)@.badges == final(r)@,
            final(self)@.badges_rev == final(r).rev(),
            final(self)@.state == old(self)@.state,
            final(self)@.last_events == old(self)@.last_events,
            final(self)@.last_rfid == old(self)@.last_rfid,
            final(self)@.last_rfid_time == old(self)@.last_rfid_time,
    {
        &mut self.badge_manager
    }

    /// The security state.
    pub fn state(&self) -> (r: SecurityState)
        ensures
            r == self@.state,
    {
        self.current_state
    }

    /// `YES` when the last round reported motion, else `NO`.
    pub fn motion_str(&self) -> (r: &'static str)
        ensures
            r@ == (if has_flag(self@.last_events, EVENT_MOTION_DETECTED) { "YES"@ } else { "NO"@ }),
    {
        if self.last_events.contains(Events::motion_detected()) {
            "YES"
        } else {
            "NO"
        }
    }

    /// `PRESSED` when the last round reported the button, else `RELEASED`.
    pub fn btn_str(&self) -> (r: &'static str)
        ensures
            r@ == (if has_flag(self@.last_events, EVENT_BTN_PRESSED) { "PRESSED"@ } else { "RELEASED"@ }),
    {
        if self.last_events.contains(Events::btn_pressed()) {
            "PRESSED"
        } else {
            "RELEASED"
        }
    }
}

} // verus!
