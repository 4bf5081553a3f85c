use alarm_gateway::arduino_consts::{Events, SecurityState};
use alarm_gateway::badge_menu::{BadgeField, BadgeMenu, BadgeTab};
use alarm_gateway::badges::BadgeManager;
use alarm_gateway::controller::{AlarmController, PollInput};
use alarm_gateway::keys::Key;
use alarm_gateway::log_menu::LogMenu;
use alarm_gateway::menu::{MainTab, Menu};
use alarm_gateway::tui_logger::{log_line, log_rows, recent_lines, record_line, LogLevel};

fn controller() -> AlarmController {
    let mut m = BadgeManager::new();
    m.add_badge_at("AAAA1111", "Alice", None, 10).unwrap();
    m.add_badge_at("BBBB2222", "Bob", None, 20).unwrap();
    AlarmController::with_badges(SecurityState::Disarmed, m)
}

fn scan(c: &mut AlarmController, uid: &str, now: u64) {
    c.poll(PollInput {
        hw_state: SecurityState::Disarmed,
        events: Events::rfid_read(),
        rfid_uid: Some(uid.to_string()),
        now_secs: now,
        now_instant: now as i128,
    })
    .unwrap();
}

#[test]
fn badge_menu_lists_and_navigates() {
    let mut c = controller();
    let mut menu = BadgeMenu::new();
    menu.reset(&c).unwrap();
    assert_eq!(menu.badges_list.len(), 2);
    assert_eq!(menu.badges_list[0].uid, "BBBB2222");
    assert_eq!(menu.max_items, 2);
    assert!(!menu.handle_key(Key::Down, &mut c, 100).unwrap());
    assert_eq!(menu.selected_item, 1);
    menu.handle_key(Key::Down, &mut c, 100).unwrap();
    assert_eq!(menu.selected_item, 1);
    menu.handle_key(Key::Up, &mut c, 100).unwrap();
    menu.handle_key(Key::Up, &mut c, 100).unwrap();
    assert_eq!(menu.selected_item, 0);
    assert!(menu.key_help().unwrap().contains("[D] Delete Selected"));
}

#[test]
fn badge_menu_toggle_and_delete() {
    let mut c = controller();
    let mut menu = BadgeMenu::new();
    menu.reset(&c).unwrap();
    menu.handle_key(Key::Char('e'), &mut c, 100).unwrap();
    assert!(!c.badge_manager().get_badge("BBBB2222").unwrap().unwrap().enabled);
    assert!(!menu.badges_list[0].enabled);
    menu.handle_key(Key::Char('E'), &mut c, 100).unwrap();
    assert!(c.badge_manager().get_badge("BBBB2222").unwrap().unwrap().enabled);
    menu.handle_key(Key::Down, &mut c, 100).unwrap();
    menu.handle_key(Key::Char('d'), &mut c, 100).unwrap();
    assert!(c.badge_manager().get_badge("AAAA1111").unwrap().is_none());
    assert_eq!(menu.badges_list.len(), 1);
    assert_eq!(menu.max_items, 1);
    assert_eq!(menu.selected_item, 0);
}

#[test]
fn badge_menu_add_by_scan() {
    let mut c = controller();
    let mut menu = BadgeMenu::new();
    menu.reset(&c).unwrap();
    assert!(menu.handle_key(Key::Char('a'), &mut c, 100).unwrap());
    assert_eq!(menu.badge_tab, BadgeTab::AddBadge);
    assert_eq!(menu.message.as_deref(), Some("Place badge near scanner..."));
    assert_eq!(menu.key_help().as_deref(), Some("[ESC] Back"));
    scan(&mut c, "C0DE9999", 100);
    menu.poll(&mut c).unwrap();
    let field = menu.badge_field.as_ref().unwrap();
    assert_eq!(field.uid, "C0DE9999");
    assert_eq!(field.name, "Badge C0DE");
    assert_eq!(menu.message, None);
    // Edit the name, switch to the validity field, type days.
    menu.handle_key(Key::Backspace, &mut c, 100).unwrap();
    menu.handle_key(Key::Char('X'), &mut c, 100).unwrap();
    menu.handle_key(Key::Down, &mut c, 100).unwrap();
    for k in ['1', 'x', '2', '3', '4', '5'] {
        menu.handle_key(Key::Char(k), &mut c, 100).unwrap();
    }
    let field = menu.badge_field.as_ref().unwrap();
    assert_eq!(field.name, "Badge C0DX");
    assert_eq!(field.expiry_days, "1234");
    assert_eq!(field.selected_field, 1);
    assert!(!menu.handle_key(Key::Enter, &mut c, 100).unwrap());
    let added = c.badge_manager().get_badge("C0DE9999").unwrap().unwrap();
    assert_eq!(added.name, "Badge C0DX");
    assert_eq!(added.expires_at, Some(100 + 1234 * 86_400 * 1_000_000_000));
    assert_eq!(added.created_at, 100);
    assert_eq!(menu.badge_tab, BadgeTab::ListBadges);
    assert!(menu.badge_field.is_none());
    assert_eq!(menu.message, None);
    assert_eq!(menu.badges_list.len(), 3);
}

#[test]
fn badge_menu_form_refused_for_known_uid() {
    let mut c = controller();
    let mut menu = BadgeMenu::new();
    menu.badge_tab = BadgeTab::AddBadge;
    menu.badge_field = Some(BadgeField {
        uid: "AAAA1111".to_string(),
        name: "again".to_string(),
        expiry_days: String::new(),
        selected_field: 0,
    });
    assert!(menu.handle_key(Key::Enter, &mut c, 100).is_err());
    assert!(menu.badge_field.is_some());
    menu.handle_key(Key::Esc, &mut c, 100).unwrap();
    assert!(menu.badge_field.is_none());
    assert_eq!(menu.badge_tab, BadgeTab::ListBadges);
}

#[test]
fn badge_menu_remove_by_scan() {
    let mut c = controller();
    let mut menu = BadgeMenu::new();
    menu.reset(&c).unwrap();
    assert!(menu.handle_key(Key::Char('r'), &mut c, 100).unwrap());
    scan(&mut c, "AAAA1111", 100);
    menu.poll(&mut c).unwrap();
    assert_eq!(menu.message.as_deref(), Some("Badge removed: Alice"));
    assert!(c.badge_manager().get_badge("AAAA1111").unwrap().is_none());
    // The same UID again changes nothing.
    menu.poll(&mut c).unwrap();
    assert_eq!(menu.message.as_deref(), Some("Badge removed: Alice"));
    scan(&mut c, "ZZZZ", 101);
    menu.poll(&mut c).unwrap();
    assert_eq!(menu.message.as_deref(), Some("Badge not found in database"));
    assert!(!menu.handle_key(Key::Esc, &mut c, 100).unwrap());
    assert_eq!(menu.last_badge_uid, None);
}

#[test]
fn two_tab_menu() {
    let mut c = controller();
    let mut menu = Menu::new();
    assert_eq!(menu.main_tab, MainTab::Logs);
    assert_eq!(menu.handle_key(Key::Down, &mut c, 100).unwrap(), None);
    assert_eq!(menu.handle_key(Key::Tab, &mut c, 100).unwrap(), None);
    assert_eq!(menu.main_tab, MainTab::Badges);
    assert_eq!(menu.badges_list, vec![("BBBB2222".to_string(), "Bob".to_string()), ("AAAA1111".to_string(), "Alice".to_string())]);
    assert_eq!(menu.badge_statuses, vec![true, true]);
    menu.handle_key(Key::Char('e'), &mut c, 100).unwrap();
    assert_eq!(menu.badge_statuses, vec![false, true]);
    assert_eq!(menu.get_bottom_help(), "[A] Add  [D] Delete  [R] Remove by Scan  [E] Toggle  [↑/↓] Navigate  [TAB] Switch Tab  [Q] Quit");
    menu.handle_key(Key::Char('a'), &mut c, 100).unwrap();
    assert_eq!(menu.get_bottom_help(), "[ESC] Back");
    scan(&mut c, "DD", 100);
    menu.poll(&mut c).unwrap();
    assert_eq!(menu.badge_field.as_ref().unwrap().name, "Badge DD");
    assert_eq!(menu.get_bottom_help(), "[↑/↓] Navigate  [ENTER] Confirm  [ESC] Cancel");
    assert_eq!(menu.handle_key(Key::Char('q'), &mut c, 100).unwrap(), None);
    assert_eq!(menu.badge_field.as_ref().unwrap().name, "Badge DDq");
    menu.handle_key(Key::Enter, &mut c, 100).unwrap();
    assert!(c.badge_manager().get_badge("DD").unwrap().is_some());
    assert_eq!(menu.handle_key(Key::Char('Q'), &mut c, 100).unwrap().as_deref(), Some("quit"));
    menu.handle_key(Key::Tab, &mut c, 100).unwrap();
    assert_eq!(menu.main_tab, MainTab::Logs);
}

#[test]
fn log_buffer_and_lines() {
    let _ = LogMenu::new();
    assert_eq!(log_line("2024-01-01 00:00:00", LogLevel::Info, "hello"), "[2024-01-01 00:00:00] [INFO] hello");
    assert!(LogLevel::Warn.is_recorded());
    assert!(!LogLevel::Debug.is_recorded());
    let mut buf: Vec<String> = Vec::new();
    for i in 0..105 {
        record_line(&mut buf, format!("line {}", i));
    }
    assert_eq!(buf.len(), 100);
    assert_eq!(buf[0], "line 5");
    assert_eq!(buf[99], "line 104");
    assert_eq!(recent_lines(&buf, 3), vec!["line 104".to_string(), "line 103".to_string(), "line 102".to_string()]);
    assert_eq!(recent_lines(&buf, 500).len(), 100);
    assert_eq!(log_rows(10), 8);
    assert_eq!(log_rows(1), 0);
}

#[test]
fn toggle_flips_enabled_flag_of_expired_badge() {
    let mut m = BadgeManager::new();
    m.add_badge_at("TTTT", "Temp", Some(50), 10).unwrap();
    let mut c = AlarmController::with_badges(SecurityState::Disarmed, m);
    let mut menu = BadgeMenu::new();
    menu.reset(&c).unwrap();
    menu.handle_key(Key::Char('e'), &mut c, 100).unwrap();
    assert!(!c.badge_manager().get_badge("TTTT").unwrap().unwrap().enabled);
    menu.handle_key(Key::Char('e'), &mut c, 100).unwrap();
    assert!(c.badge_manager().get_badge("TTTT").unwrap().unwrap().enabled);

    let mut m = BadgeManager::new();
    m.add_badge_at("TTTT", "Temp", Some(50), 10).unwrap();
    let mut c = AlarmController::with_badges(SecurityState::Disarmed, m);
    let mut menu = Menu::new();
    menu.handle_key(Key::Tab, &mut c, 100).unwrap();
    menu.handle_key(Key::Char('E'), &mut c, 100).unwrap();
    assert!(!c.badge_manager().get_badge("TTTT").unwrap().unwrap().enabled);
}

#[test]
fn form_name_stays_within_thirty_characters() {
    let mut c = controller();
    let mut menu = BadgeMenu::new();
    menu.badge_tab = BadgeTab::AddBadge;
    menu.badge_field = Some(BadgeField {
        uid: "U1".to_string(),
        name: String::new(),
        expiry_days: String::new(),
        selected_field: 0,
    });
    for _ in 0..40 {
        menu.handle_key(Key::Char('é'), &mut c, 100).unwrap();
    }
    let name = &menu.badge_field.as_ref().unwrap().name;
    assert_eq!(name.chars().count(), 15);
    assert_eq!(name.len(), 30);
    assert_eq!(menu.badge_field.as_ref().unwrap().uid, "U1");
}
