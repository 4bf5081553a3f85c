use alarm_gateway::arduino::{check_response, checksum, events_from_read, read_request, response_len,
    rfid_uid_from_values, state_from_status, state_write_request, write_request, READ_FLAG};
use alarm_gateway::arduino_consts::{Events, Register, SecurityState};
use alarm_gateway::grovepi::{analog_read_frame, decode_analog, decode_digital, digital_read_frame, pin_mode_frame, GrovePiCommand, GrovePiPinMode};
use alarm_gateway::lcd::{cursor_command, init_steps, InitStep};
use alarm_gateway::monitor::{alarm_label, alarm_value, motion_in, rfid_in, rfid_tag, status_line};
use alarm_gateway::text::parse_i64;

#[test]
fn frames() {
    assert_eq!(write_request(Register::Status, 2), [0x00, 2]);
    assert_eq!(read_request(Register::Rfid, 6), [0x02 | READ_FLAG, 6]);
    assert_eq!(read_request(Register::Events, 1), [0x81, 1]);
    assert_eq!(state_write_request(SecurityState::Triggered), [0x00, 2]);
    assert_eq!(response_len(6), 7);
}

#[test]
fn checksum_is_sum_mod_256() {
    assert_eq!(checksum(&[]), 0);
    assert_eq!(checksum(&[200, 100]), 44);
    assert_eq!(checksum(&[1, 2, 3]), 6);
}

#[test]
fn responses_are_checked() {
    assert_eq!(check_response(&[1, 2, 3, 6], 3), Some(vec![1, 2, 3]));
    assert_eq!(check_response(&[1, 2, 3, 7], 3), None);
    assert_eq!(check_response(&[200, 100, 44], 2), Some(vec![200, 100]));
    assert_eq!(check_response(&[0], 0), Some(vec![]));
}

#[test]
fn events_keep_known_flags() {
    assert_eq!(events_from_read(Some(0xff)).bits(), 0x07);
    assert_eq!(events_from_read(None).bits(), 0);
    let e = events_from_read(Some(0x05));
    assert!(e.contains(Events::btn_pressed()));
    assert!(e.contains(Events::rfid_read()));
    assert!(!e.contains(Events::motion_detected()));
}

#[test]
fn rfid_uid_is_upper_hex_and_zero_means_none() {
    assert_eq!(rfid_uid_from_values(&[0x01, 0x05, 0x6D, 0xE7, 0xD6, 0x58]).as_deref(), Some("01056DE7D658"));
    assert_eq!(rfid_uid_from_values(&[0, 0, 0, 0, 0, 0]), None);
    assert_eq!(rfid_uid_from_values(&[0, 0, 0, 0, 0, 1]).as_deref(), Some("000000000001"));
}

#[test]
fn status_codes() {
    assert_eq!(state_from_status(0), Some(SecurityState::Disarmed));
    assert_eq!(state_from_status(1), Some(SecurityState::Armed));
    assert_eq!(state_from_status(2), Some(SecurityState::Triggered));
    assert_eq!(state_from_status(3), None);
    assert_eq!(SecurityState::Armed.code(), 1);
}

#[test]
fn grovepi_frames_and_replies() {
    assert_eq!(pin_mode_frame(1, GrovePiPinMode::Input), [5, 1, 0, 0]);
    assert_eq!(pin_mode_frame(4, GrovePiPinMode::Output), [5, 4, 1, 0]);
    assert_eq!(analog_read_frame(0), [3, 0, 0, 0]);
    assert_eq!(digital_read_frame(2), [1, 2, 0, 0]);
    assert_eq!(GrovePiCommand::AnalogWrite.code(), 4);
    assert_eq!(decode_analog(&[9, 0x03, 0xFF]), 1023);
    assert_eq!(decode_analog(&[0, 0x02, 0x01]), 513);
    assert!(decode_digital(1));
    assert!(!decode_digital(0));
    assert!(!decode_digital(255));
}

#[test]
fn lcd_commands() {
    assert_eq!(cursor_command(0, 0), 0x80);
    assert_eq!(cursor_command(5, 1), 0xC5);
    assert_eq!(cursor_command(0x40, 1), 0x00);
    let steps = init_steps();
    assert_eq!(steps.len(), 11);
    assert_eq!(steps[1], InitStep::Command(0x28));
    assert_eq!(steps[7], InitStep::Command(0x0C));
    assert_eq!(steps[8], InitStep::Command(0x01));
    assert_eq!(steps[10], InitStep::Command(0x06));
}

#[test]
fn monitor_line() {
    assert_eq!(alarm_label(1), "ON ");
    assert_eq!(alarm_label(2), "TRIGGERED ");
    assert_eq!(alarm_label(9), "OFF");
    assert_eq!(alarm_value(true), 1);
    assert!(motion_in(0x02));
    assert!(!motion_in(0x05));
    assert!(rfid_in(0x04));
    assert_eq!(rfid_tag(&[0xAB, 0x01]), "AB01");
    assert_eq!(status_line(1, true, None), "\r[Alarme: ON ] [Mouvement: OUI] [RFID: Aucun           ]");
    assert_eq!(status_line(0, false, Some("0123456789ABCDEF01".to_string())),
        "\r[Alarme: OFF] [Mouvement: NON] [RFID: 0123456789ABCDEF01]");
}

#[test]
fn integers_parse_like_std() {
    for s in ["0", "42", "+7", "-15", "0007", "9223372036854775807", "-9223372036854775808",
              "", "-", "+", "1a", "9223372036854775808", "-9223372036854775809", " 1"] {
        assert_eq!(parse_i64(s), s.parse::<i64>().ok(), "{:?}", s);
    }
}
