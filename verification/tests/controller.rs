use alarm_gateway::arduino_consts::{Events, SecurityState};
use alarm_gateway::badges::BadgeManager;
use alarm_gateway::controller::{AlarmController, PollActions, PollError, PollInput};

fn registry() -> BadgeManager {
    let mut m = BadgeManager::new();
    m.add_badge_at("AAAA", "Alice", None, 0).unwrap();
    m.add_badge_at("BBBB", "Bob", Some(50), 0).unwrap();
    m.add_badge_at("CCCC", "Carol", None, 0).unwrap();
    m.disable_badge("CCCC").unwrap();
    m
}

fn input(hw: SecurityState, events: Events, uid: Option<&str>, now: u64) -> PollInput {
    PollInput {
        hw_state: hw,
        events,
        rfid_uid: uid.map(|s| s.to_string()),
        now_secs: now,
        now_instant: now as i128,
    }
}

fn poll(c: &mut AlarmController, i: PollInput) -> PollActions {
    c.poll(i).expect("round completes")
}

#[test]
fn button_arms_disarmed_system() {
    let mut c = AlarmController::with_badges(SecurityState::Disarmed, registry());
    let a = poll(&mut c, input(SecurityState::Disarmed, Events::btn_pressed(), None, 10));
    assert_eq!(a.write_state, Some(SecurityState::Armed));
    assert!(a.armed_by_button);
    assert!(!a.send_alert);
    assert_eq!(c.state(), SecurityState::Armed);
    assert_eq!(c.btn_str(), "PRESSED");
    assert_eq!(c.motion_str(), "NO");
}

#[test]
fn button_ignored_when_armed() {
    let mut c = AlarmController::with_badges(SecurityState::Armed, registry());
    let a = poll(&mut c, input(SecurityState::Armed, Events::btn_pressed(), None, 10));
    assert_eq!(a.write_state, None);
    assert!(!a.armed_by_button);
}

#[test]
fn valid_badge_disarms_and_is_marked_used() {
    let mut c = AlarmController::with_badges(SecurityState::Armed, registry());
    let a = poll(&mut c, input(SecurityState::Armed, Events::rfid_read(), Some("AAAA"), 20));
    assert_eq!(a.write_state, Some(SecurityState::Disarmed));
    assert_eq!(a.disarmed_by.as_deref(), Some("Alice"));
    assert_eq!(a.denied_uid, None);
    assert_eq!(c.last_rfid(), Some("AAAA"));
    assert_eq!(c.badge_manager().get_badge("AAAA").unwrap().unwrap().last_used, Some(20));
}

#[test]
fn valid_badge_stops_ringing_alarm() {
    let mut c = AlarmController::with_badges(SecurityState::Triggered, registry());
    let a = poll(&mut c, input(SecurityState::Triggered, Events::rfid_read().union(Events::motion_detected()), Some("AAAA"), 20));
    assert_eq!(a.write_state, Some(SecurityState::Disarmed));
    assert!(!a.send_alert);
}

#[test]
fn refused_badges_do_not_disarm() {
    for (uid, now) in [("ZZZZ", 20u64), ("CCCC", 20), ("BBBB", 60)] {
        let mut c = AlarmController::with_badges(SecurityState::Armed, registry());
        let a = poll(&mut c, input(SecurityState::Armed, Events::rfid_read(), Some(uid), now));
        assert_eq!(a.write_state, None);
        assert_eq!(a.denied_uid.as_deref(), Some(uid));
        assert_eq!(c.state(), SecurityState::Armed);
    }
}

#[test]
fn expiring_badge_valid_until_its_instant() {
    let mut c = AlarmController::with_badges(SecurityState::Armed, registry());
    let a = poll(&mut c, input(SecurityState::Armed, Events::rfid_read(), Some("BBBB"), 50));
    assert_eq!(a.write_state, Some(SecurityState::Disarmed));
}

#[test]
fn badge_on_disarmed_system_changes_nothing() {
    let mut c = AlarmController::with_badges(SecurityState::Disarmed, registry());
    let a = poll(&mut c, input(SecurityState::Disarmed, Events::rfid_read(), Some("AAAA"), 20));
    assert_eq!(a.write_state, None);
    assert_eq!(a.disarmed_by, None);
    assert_eq!(a.denied_uid, None);
    assert_eq!(c.badge_manager().get_badge("AAAA").unwrap().unwrap().last_used, None);
}

#[test]
fn motion_while_armed_triggers_and_alerts() {
    let mut c = AlarmController::with_badges(SecurityState::Armed, registry());
    let a = poll(&mut c, input(SecurityState::Armed, Events::motion_detected(), None, 30));
    assert!(a.send_alert);
    assert_eq!(a.write_state, Some(SecurityState::Triggered));
    assert_eq!(c.motion_str(), "YES");
}

#[test]
fn motion_wins_over_badge_in_same_round() {
    let mut c = AlarmController::with_badges(SecurityState::Armed, registry());
    let a = poll(&mut c, input(SecurityState::Armed, Events::motion_detected().union(Events::rfid_read()), Some("AAAA"), 30));
    assert!(a.send_alert);
    assert_eq!(a.write_state, Some(SecurityState::Triggered));
    assert_eq!(a.disarmed_by.as_deref(), Some("Alice"));
}

#[test]
fn motion_ignored_when_disarmed() {
    let mut c = AlarmController::with_badges(SecurityState::Disarmed, registry());
    let a = poll(&mut c, input(SecurityState::Disarmed, Events::motion_detected(), None, 30));
    assert!(!a.send_alert);
    assert_eq!(a.write_state, None);
}

#[test]
fn no_write_when_arduino_already_there() {
    let mut c = AlarmController::with_badges(SecurityState::Disarmed, registry());
    let a = poll(&mut c, input(SecurityState::Armed, Events::btn_pressed(), None, 10));
    assert_eq!(a.write_state, None);
    assert_eq!(c.state(), SecurityState::Armed);
}

#[test]
fn unreadable_uid_ends_round() {
    let mut c = AlarmController::with_badges(SecurityState::Armed, registry());
    let r = c.poll(input(SecurityState::Triggered, Events::rfid_read(), None, 10));
    assert!(matches!(r, Err(PollError::RfidUnreadable)));
    assert_eq!(c.state(), SecurityState::Triggered);
}

#[test]
fn scanned_uid_times_out() {
    let mut c = AlarmController::with_badges(SecurityState::Disarmed, registry());
    poll(&mut c, input(SecurityState::Disarmed, Events::rfid_read(), Some("AAAA"), 100));
    poll(&mut c, input(SecurityState::Disarmed, Events::empty(), None, 105));
    assert_eq!(c.get_last_rfid(), Some("AAAA"));
    poll(&mut c, input(SecurityState::Disarmed, Events::empty(), None, 106));
    assert_eq!(c.get_last_rfid(), None);
}

#[test]
fn needs_rfid_read_follows_flag() {
    assert!(AlarmController::needs_rfid_read(Events::rfid_read()));
    assert!(!AlarmController::needs_rfid_read(Events::btn_pressed()));
    assert!(AlarmController::needs_rfid_read(Events::from_bits_truncate(0xff)));
}

#[test]
fn new_controller_cleans_expired_badges() {
    let mut m = BadgeManager::new();
    m.add_badge_at("OLD", "old", Some(1), 0).unwrap();
    m.add_badge_at("KEEP", "keep", None, 0).unwrap();
    let c = AlarmController::new(SecurityState::Armed, m).unwrap();
    assert_eq!(c.state(), SecurityState::Armed);
    assert!(c.badge_manager().get_badge("OLD").unwrap().is_none());
    assert!(c.badge_manager().get_badge("KEEP").unwrap().is_some());
    assert_eq!(c.last_rfid(), None);
}

#[test]
fn enrolled_badge_disarms_after_adding() {
    let mut c = AlarmController::with_badges(SecurityState::Armed, BadgeManager::new());
    let a = poll(&mut c, input(SecurityState::Armed, Events::rfid_read(), Some("C0FFEE"), 10));
    assert_eq!(a.write_state, None);
    assert_eq!(a.denied_uid.as_deref(), Some("C0FFEE"));
    c.badge_manager_mut().add_badge_at("C0FFEE", "Carol", None, 11).unwrap();
    let a = poll(&mut c, input(SecurityState::Armed, Events::rfid_read(), Some("C0FFEE"), 12));
    assert_eq!(a.write_state, Some(SecurityState::Disarmed));
    assert_eq!(a.disarmed_by.as_deref(), Some("Carol"));
    assert_eq!(c.state(), SecurityState::Disarmed);
}
