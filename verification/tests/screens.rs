use alarm_gateway::keys::Key;
use alarm_gateway::tab_bar::{next_tab, tab_key_action, TabKeyAction};
use alarm_gateway::arduino_consts::SecurityState;
use alarm_gateway::badge_menu::{BadgeField, BadgeMenu};
use alarm_gateway::badges::Badge;
use alarm_gateway::menu::Menu;
use alarm_gateway::screens::{
    pair_line,
    badge_line, badge_list_title, expiry_display, field_value, last_badge_label, remove_screen_message,
    selection_marker, state_label,
};

const S: i128 = 1_000_000_000;

fn form(days: &str, selected_field: usize) -> BadgeField {
    BadgeField {
        uid: "01056DE7D658".to_string(),
        name: "Badge 0105".to_string(),
        expiry_days: days.to_string(),
        selected_field,
    }
}

#[test]
fn status_bar_labels() {
    assert_eq!(state_label(SecurityState::Disarmed), "🟢 DISARMED");
    assert_eq!(state_label(SecurityState::Armed), "🛑 ARMED");
    assert_eq!(state_label(SecurityState::Triggered), "🚨 ALARM");
    assert_eq!(last_badge_label(None), "None");
    assert_eq!(last_badge_label(Some("AB12")), "AB12");
}

#[test]
fn form_field_texts() {
    assert_eq!(selection_marker(true), "▶ ");
    assert_eq!(selection_marker(false), "  ");
    assert_eq!(field_value("Alice", true), "Alice_");
    assert_eq!(field_value("Alice", false), "Alice");
    assert_eq!(expiry_display(&form("", 1)), "(leave empty for no expiry)");
    assert_eq!(expiry_display(&form("12", 1)), "12_ days");
    assert_eq!(expiry_display(&form("12", 0)), "12 days");
}

#[test]
fn badge_row_texts() {
    let b = Badge {
        id: 3,
        uid: "ABCDEF".to_string(),
        name: "Alice".to_string(),
        created_at: 1_700_000_000 * S,
        last_used: None,
        expires_at: Some(1_700_086_400 * S),
        enabled: true,
    };
    let line = badge_line(&b, true);
    assert_eq!(line.marker, "▶ ");
    assert_eq!(line.status, " ✓");
    assert_eq!(line.name, "Alice");
    assert_eq!(line.uid, "(ABCDEF)");
    assert_eq!(line.expiry, "[Expires: 2023-11-15]");
    assert_eq!(line.created, "[Created: 2023-11-14]");
    assert_eq!(line.last_used, "[Never Used]");

    let c = Badge { enabled: false, expires_at: None, last_used: Some(0), ..b };
    let line = badge_line(&c, false);
    assert_eq!(line.marker, "  ");
    assert_eq!(line.status, " ✗");
    assert_eq!(line.expiry, "[No Expiry]");
    assert_eq!(line.last_used, "[Last Used: 1970-01-01]");
    assert_eq!(badge_list_title(2), " Badges (2) ");
    assert_eq!(badge_list_title(0), " Badges (0) ");
}

#[test]
fn remove_screen_texts() {
    let mut m = BadgeMenu::new();
    assert_eq!(remove_screen_message(&m), "Place badge near scanner...");
    m.message = Some("Badge removed: Alice".to_string());
    assert_eq!(remove_screen_message(&m), "Badge removed: Alice");
}

#[test]
fn badge_row_dates_outside_four_digit_years() {
    let b = Badge {
        id: 1,
        uid: "U".to_string(),
        name: "u".to_string(),
        created_at: 253_402_300_800 * S,
        last_used: Some(-1),
        expires_at: Some(i128::MAX),
        enabled: true,
    };
    let line = badge_line(&b, false);
    assert_eq!(line.created, "[Created: +10000-01-01]");
    assert_eq!(line.last_used, "[Last Used: 1969-12-31]");
    assert_eq!(line.expiry, "[Expires: ?]");
}

#[test]
fn tab_row_keys() {
    assert_eq!(tab_key_action(Key::Tab, false), TabKeyAction::NextTab);
    assert_eq!(tab_key_action(Key::Char('q'), false), TabKeyAction::Quit);
    assert_eq!(tab_key_action(Key::Char('Q'), false), TabKeyAction::Quit);
    assert_eq!(tab_key_action(Key::Char('a'), false), TabKeyAction::Forward);
    assert_eq!(tab_key_action(Key::Tab, true), TabKeyAction::Forward);
    assert_eq!(tab_key_action(Key::Char('q'), true), TabKeyAction::Forward);
    assert_eq!(next_tab(0, 3), 1);
    assert_eq!(next_tab(2, 3), 0);
}

#[test]
fn two_tab_menu_row_texts() {
    let mut m = Menu::new();
    m.badges_list = vec![("AB".to_string(), "Alice".to_string()), ("CD".to_string(), "Bob".to_string())];
    m.badge_statuses = vec![true];
    m.selected_item = 1;
    let first = pair_line(&m, 0);
    assert_eq!(first.marker, "  ");
    assert_eq!(first.status, " ✓");
    assert_eq!(first.name, "Alice");
    assert_eq!(first.uid, "(AB)");
    let second = pair_line(&m, 1);
    assert_eq!(second.marker, "▶ ");
    assert_eq!(second.status, " ✗");
    assert_eq!(second.uid, "(CD)");
}
