use alarm_gateway::arduino_consts::SecurityState;
use alarm_gateway::badges::{BadgeError, BadgeManager};
use alarm_gateway::lcd_controller::{LcdController, LcdInput, LcdOutput, LcdState, MenuOption};

fn start(now: u64, alarm: SecurityState, rfid: Option<&str>) -> LcdInput {
    LcdInput::Start { now_ms: now, instant: (now / 1000) as i128, alarm, last_rfid: rfid.map(|s| s.to_string()) }
}

fn shows(o: &LcdOutput, l1: &str, l2: Option<&str>) -> bool {
    match o {
        LcdOutput::Show { line1, line2 } | LcdOutput::ShowAndWait { line1, line2 } => {
            line1 == l1 && line2.as_deref() == l2
        }
        _ => false,
    }
}

#[test]
fn menu_option_labels() {
    assert_eq!(MenuOption::AddCard.as_str(), "Add Card");
    assert_eq!(MenuOption::RemoveCard.as_str(), "Remove Card");
}

#[test]
fn default_screen_drawn_once() {
    let mut reg = BadgeManager::new();
    let mut lcd = LcdController::new(0);
    let o = lcd.step(start(10, SecurityState::Armed, None), &mut reg);
    assert!(shows(&o, "Armed", Some("Scan to disarm")));
    let o = lcd.step(LcdInput::Shown { now_ms: 11 }, &mut reg);
    assert!(matches!(o, LcdOutput::ReadButton));
    let o = lcd.step(LcdInput::Button { now_ms: 12, level: 0 }, &mut reg);
    assert!(matches!(o, LcdOutput::Done));
    // Same screen: nothing to draw, straight to the button.
    let o = lcd.step(start(20, SecurityState::Armed, None), &mut reg);
    assert!(matches!(o, LcdOutput::ReadButton));
    // Other state: redrawn.
    lcd.step(LcdInput::Button { now_ms: 21, level: 0 }, &mut reg);
    let o = lcd.step(start(30, SecurityState::Disarmed, None), &mut reg);
    assert!(shows(&o, "Disarmed", Some("Use btn for menu")));
}

#[test]
fn button_edge_opens_menu_and_card_added() {
    let mut reg = BadgeManager::new();
    let mut lcd = LcdController::new(0);
    lcd.step(start(0, SecurityState::Disarmed, None), &mut reg);
    lcd.step(LcdInput::Shown { now_ms: 1 }, &mut reg);
    let o = lcd.step(LcdInput::Button { now_ms: 2, level: 900 }, &mut reg);
    assert!(shows(&o, "Menu:", Some("Add Card")));
    assert_eq!(lcd.lcd_state(), LcdState::Menu);
    let o = lcd.step(LcdInput::Shown { now_ms: 3 }, &mut reg);
    assert!(matches!(o, LcdOutput::Done));
    // Held button: no new edge; knob at zero keeps the selection.
    let o = lcd.step(start(100, SecurityState::Disarmed, None), &mut reg);
    assert!(matches!(o, LcdOutput::ReadButton));
    let o = lcd.step(LcdInput::Button { now_ms: 101, level: 900 }, &mut reg);
    assert!(matches!(o, LcdOutput::ReadRotary));
    let o = lcd.step(LcdInput::Rotary { now_ms: 102, level: 0 }, &mut reg);
    assert!(matches!(o, LcdOutput::Done));
    // Release, then press again: the add-card screen.
    lcd.step(start(200, SecurityState::Disarmed, None), &mut reg);
    lcd.step(LcdInput::Button { now_ms: 201, level: 0 }, &mut reg);
    lcd.step(LcdInput::Rotary { now_ms: 202, level: 0 }, &mut reg);
    lcd.step(start(300, SecurityState::Disarmed, None), &mut reg);
    let o = lcd.step(LcdInput::Button { now_ms: 301, level: 900 }, &mut reg);
    assert!(shows(&o, "Add Card", Some("Scan RFID card")));
    assert_eq!(lcd.lcd_state(), LcdState::AddCard);
    let o = lcd.step(LcdInput::Shown { now_ms: 302 }, &mut reg);
    assert!(matches!(o, LcdOutput::Done));
    // A scan adds the card.
    let o = lcd.step(start(2000, SecurityState::Disarmed, Some("C0FFEE")), &mut reg);
    assert!(shows(&o, "Card added", None));
    assert!(matches!(o, LcdOutput::ShowAndWait { .. }));
    assert_eq!(reg.get_badge("C0FFEE").unwrap().unwrap().name, "Card C0FFEE");
    let o = lcd.step(LcdInput::Shown { now_ms: 4000 }, &mut reg);
    assert!(shows(&o, "Disarmed", Some("Use btn for menu")));
    assert_eq!(lcd.lcd_state(), LcdState::Default);
    let o = lcd.step(LcdInput::Shown { now_ms: 4001 }, &mut reg);
    assert!(matches!(o, LcdOutput::Done));
}

#[test]
fn knob_selects_remove_and_card_removed() {
    let mut reg = BadgeManager::new();
    reg.add_badge_at("BEEF", "b", None, 0).unwrap();
    let mut lcd = LcdController::new(0);
    lcd.step(start(0, SecurityState::Disarmed, None), &mut reg);
    lcd.step(LcdInput::Shown { now_ms: 1 }, &mut reg);
    lcd.step(LcdInput::Button { now_ms: 2, level: 600 }, &mut reg);
    lcd.step(LcdInput::Shown { now_ms: 3 }, &mut reg);
    lcd.step(start(10, SecurityState::Disarmed, None), &mut reg);
    lcd.step(LcdInput::Button { now_ms: 11, level: 0 }, &mut reg);
    let o = lcd.step(LcdInput::Rotary { now_ms: 12, level: 700 }, &mut reg);
    assert!(shows(&o, "Menu:", Some("Remove Card")));
    lcd.step(LcdInput::Shown { now_ms: 13 }, &mut reg);
    lcd.step(start(20, SecurityState::Disarmed, None), &mut reg);
    let o = lcd.step(LcdInput::Button { now_ms: 21, level: 600 }, &mut reg);
    assert!(shows(&o, "Remove Card", Some("Scan RFID card")));
    lcd.step(LcdInput::Shown { now_ms: 22 }, &mut reg);
    let o = lcd.step(start(1000, SecurityState::Disarmed, Some("BEEF")), &mut reg);
    assert!(shows(&o, "Card removed", None));
    assert!(reg.get_badge("BEEF").unwrap().is_none());
}

#[test]
fn menu_times_out() {
    let mut reg = BadgeManager::new();
    let mut lcd = LcdController::new(0);
    lcd.step(start(0, SecurityState::Disarmed, None), &mut reg);
    lcd.step(LcdInput::Shown { now_ms: 1 }, &mut reg);
    lcd.step(LcdInput::Button { now_ms: 2, level: 600 }, &mut reg);
    lcd.step(LcdInput::Shown { now_ms: 3 }, &mut reg);
    lcd.step(start(10_002, SecurityState::Disarmed, None), &mut reg);
    lcd.step(LcdInput::Button { now_ms: 10_002, level: 600 }, &mut reg);
    let o = lcd.step(LcdInput::Rotary { now_ms: 10_002, level: 0 }, &mut reg);
    assert!(matches!(o, LcdOutput::Done));
    lcd.step(start(10_003, SecurityState::Disarmed, None), &mut reg);
    lcd.step(LcdInput::Button { now_ms: 10_003, level: 600 }, &mut reg);
    let o = lcd.step(LcdInput::Rotary { now_ms: 10_003, level: 0 }, &mut reg);
    assert!(shows(&o, "Disarmed", Some("Use btn for menu")));
    assert_eq!(lcd.lcd_state(), LcdState::Default);
}

#[test]
fn existing_card_is_not_added_twice() {
    let mut reg = BadgeManager::new();
    reg.add_badge_at("AA", "a", None, 0).unwrap();
    let mut lcd = LcdController::new(0);
    lcd.step(start(0, SecurityState::Disarmed, None), &mut reg);
    lcd.step(LcdInput::Shown { now_ms: 1 }, &mut reg);
    lcd.step(LcdInput::Button { now_ms: 2, level: 600 }, &mut reg);
    lcd.step(LcdInput::Shown { now_ms: 3 }, &mut reg);
    lcd.step(start(10, SecurityState::Disarmed, None), &mut reg);
    lcd.step(LcdInput::Button { now_ms: 11, level: 0 }, &mut reg);
    lcd.step(LcdInput::Rotary { now_ms: 12, level: 0 }, &mut reg);
    lcd.step(start(20, SecurityState::Disarmed, None), &mut reg);
    lcd.step(LcdInput::Button { now_ms: 21, level: 600 }, &mut reg);
    lcd.step(LcdInput::Shown { now_ms: 22 }, &mut reg);
    let o = lcd.step(start(30, SecurityState::Disarmed, Some("AA")), &mut reg);
    assert!(shows(&o, "Card already", Some("exists")));
    assert_eq!(reg.badge_count().unwrap(), 1);
}

#[test]
fn disabled_card_cannot_be_added_again() {
    let mut reg = BadgeManager::new();
    reg.add_badge_at("AA", "a", None, 0).unwrap();
    reg.disable_badge("AA").unwrap();
    let mut lcd = LcdController::new(0);
    lcd.step(start(0, SecurityState::Disarmed, None), &mut reg);
    lcd.step(LcdInput::Shown { now_ms: 1 }, &mut reg);
    lcd.step(LcdInput::Button { now_ms: 2, level: 600 }, &mut reg);
    lcd.step(LcdInput::Shown { now_ms: 3 }, &mut reg);
    lcd.step(start(10, SecurityState::Disarmed, None), &mut reg);
    lcd.step(LcdInput::Button { now_ms: 11, level: 0 }, &mut reg);
    lcd.step(LcdInput::Rotary { now_ms: 12, level: 0 }, &mut reg);
    lcd.step(start(20, SecurityState::Disarmed, None), &mut reg);
    lcd.step(LcdInput::Button { now_ms: 21, level: 600 }, &mut reg);
    lcd.step(LcdInput::Shown { now_ms: 22 }, &mut reg);
    let o = lcd.step(start(30, SecurityState::Disarmed, Some("AA")), &mut reg);
    assert!(matches!(o, LcdOutput::Failed(_)));
    assert_eq!(lcd.lcd_state(), LcdState::AddCard);
}

#[test]
fn adding_a_disabled_card_reports_duplicate() {
    let mut reg = BadgeManager::new();
    reg.add_badge_at("C0FFEE", "Coffee", None, 0).unwrap();
    reg.disable_badge("C0FFEE").unwrap();
    let mut lcd = LcdController::new(0);
    lcd.step(start(0, SecurityState::Disarmed, None), &mut reg);
    lcd.step(LcdInput::Shown { now_ms: 1 }, &mut reg);
    lcd.step(LcdInput::Button { now_ms: 2, level: 900 }, &mut reg);
    lcd.step(LcdInput::Shown { now_ms: 3 }, &mut reg);
    lcd.step(start(100, SecurityState::Disarmed, None), &mut reg);
    lcd.step(LcdInput::Button { now_ms: 101, level: 0 }, &mut reg);
    lcd.step(LcdInput::Rotary { now_ms: 102, level: 0 }, &mut reg);
    lcd.step(start(200, SecurityState::Disarmed, None), &mut reg);
    let o = lcd.step(LcdInput::Button { now_ms: 201, level: 900 }, &mut reg);
    assert!(shows(&o, "Add Card", Some("Scan RFID card")));
    lcd.step(LcdInput::Shown { now_ms: 202 }, &mut reg);
    let o = lcd.step(start(1000, SecurityState::Disarmed, Some("C0FFEE")), &mut reg);
    assert!(matches!(o, LcdOutput::Failed(BadgeError::DuplicateUid)));
    assert!(!reg.get_badge("C0FFEE").unwrap().unwrap().enabled);
}

#[test]
fn knob_levels_select_entries() {
    let mut reg = BadgeManager::new();
    let mut lcd = LcdController::new(0);
    lcd.step(start(0, SecurityState::Disarmed, None), &mut reg);
    lcd.step(LcdInput::Shown { now_ms: 1 }, &mut reg);
    lcd.step(LcdInput::Button { now_ms: 2, level: 600 }, &mut reg);
    lcd.step(LcdInput::Shown { now_ms: 3 }, &mut reg);
    let mut turn = |now: u64, level: u16, reg: &mut BadgeManager| {
        let o = lcd.step(start(now, SecurityState::Disarmed, None), reg);
        assert!(matches!(o, LcdOutput::ReadButton));
        let o = lcd.step(LcdInput::Button { now_ms: now + 1, level: 0 }, reg);
        assert!(matches!(o, LcdOutput::ReadRotary));
        let o = lcd.step(LcdInput::Rotary { now_ms: now + 2, level }, reg);
        if let LcdOutput::Show { .. } = o {
            lcd.step(LcdInput::Shown { now_ms: now + 3 }, reg);
        }
        o
    };
    // 511 * 2 / 1023 = 0: stays on the first entry, nothing redrawn.
    assert!(matches!(turn(10, 511, &mut reg), LcdOutput::Done));
    // 512 * 2 / 1023 = 1: the second entry.
    assert!(shows(&turn(20, 512, &mut reg), "Menu:", Some("Remove Card")));
    // Beyond full scale the selection stays on the last entry.
    assert!(matches!(turn(30, 65_535, &mut reg), LcdOutput::Done));
    assert!(shows(&turn(40, 0, &mut reg), "Menu:", Some("Add Card")));
}
