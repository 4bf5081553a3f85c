use alarm_gateway::badges::{Badge, BadgeError, BadgeManager};
use alarm_gateway::rows::{decode_badge_row, encode_badge_row, BadgeRow};
use alarm_gateway::badge_menu::{expiry_of_form, BadgeField};
use alarm_gateway::datetime::parse_datetime;

const S: i128 = 1_000_000_000;

fn unix_now() -> i128 {
    std::time::SystemTime::now().duration_since(std::time::UNIX_EPOCH).unwrap().as_nanos() as i128
}

#[test]
fn test_badge_operations() -> Result<(), BadgeError> {
    let mut manager = BadgeManager::new();

    // Test adding a badge
    let badge = manager.add_badge("01056DE7D658", "Test Badge")?;
    assert_eq!(badge.uid, "01056DE7D658");
    assert_eq!(badge.name, "Test Badge");
    assert!(badge.enabled);

    // Test getting a badge
    let retrieved = manager.get_badge("01056DE7D658")?;
    assert!(retrieved.is_some());

    // Test is_valid_badge
    assert!(manager.is_valid_badge("01056DE7D658")?);

    // Test disabling a badge
    manager.disable_badge("01056DE7D658")?;
    assert!(!manager.is_valid_badge("01056DE7D658")?);

    // Test enabling a badge
    manager.enable_badge("01056DE7D658")?;
    assert!(manager.is_valid_badge("01056DE7D658")?);

    // Test removing a badge
    manager.remove_badge("01056DE7D658")?;
    assert!(manager.get_badge("01056DE7D658")?.is_none());

    Ok(())
}

#[test]
fn add_rejects_empty_uid_and_name() {
    let mut m = BadgeManager::new();
    assert!(matches!(m.add_badge("", "x"), Err(BadgeError::EmptyUid)));
    assert!(matches!(m.add_badge("AB", ""), Err(BadgeError::EmptyName)));
    assert_eq!(m.badge_count().unwrap(), 0);
}

#[test]
fn add_rejects_duplicate_uid() {
    let mut m = BadgeManager::new();
    m.add_badge_at("AB", "first", None, 10).unwrap();
    assert!(matches!(m.add_badge_at("AB", "second", None, 20), Err(BadgeError::DuplicateUid)));
    assert_eq!(m.get_badge("AB").unwrap().unwrap().name, "first");
}

#[test]
fn row_ids_follow_the_largest() {
    let mut m = BadgeManager::new();
    let a = m.add_badge_at("A", "a", None, 1).unwrap();
    let b = m.add_badge_at("B", "b", None, 2).unwrap();
    let c = m.add_badge_at("C", "c", None, 3).unwrap();
    assert_eq!((a.id, b.id, c.id), (1, 2, 3));
    m.remove_badge("C").unwrap();
    let d = m.add_badge_at("D", "d", None, 4).unwrap();
    assert_eq!(d.id, 3);
    m.remove_badge("A").unwrap();
    let e = m.add_badge_at("E", "e", None, 5).unwrap();
    assert_eq!(e.id, 4);
}

#[test]
fn ids_exhausted_at_i32_max() {
    let rows = vec![Badge {
        id: i32::MAX,
        uid: "TOP".to_string(),
        name: "top".to_string(),
        created_at: 0,
        last_used: None,
        expires_at: None,
        enabled: true,
    }];
    let mut m = BadgeManager::from_badges(rows).unwrap();
    assert!(matches!(m.add_badge_at("NEW", "new", None, 1), Err(BadgeError::IdsExhausted)));
}

#[test]
fn missing_badge_errors() {
    let mut m = BadgeManager::new();
    assert!(matches!(m.remove_badge("ZZ"), Err(BadgeError::NotFound(ref u)) if u == "ZZ"));
    assert!(matches!(m.enable_badge("ZZ"), Err(BadgeError::NotFound(_))));
    assert!(matches!(m.disable_badge("ZZ"), Err(BadgeError::NotFound(_))));
    assert!(matches!(m.is_expired("ZZ"), Err(BadgeError::NotFound(_))));
    assert!(matches!(m.badge_status("ZZ"), Err(BadgeError::NotFound(_))));
    assert!(m.update_last_used("ZZ").is_ok());
    assert!(!m.is_valid_badge("ZZ").unwrap());
}

#[test]
fn temporary_badge_validity_and_expiry() {
    let mut m = BadgeManager::new();
    m.add_badge_at("T1", "temp", Some(1000), 0).unwrap();
    assert!(m.is_valid_badge_at("T1", 999));
    assert!(m.is_valid_badge_at("T1", 1000));
    assert!(!m.is_valid_badge_at("T1", 1001));
    assert!(!m.is_expired_at("T1", 1000).unwrap());
    assert!(m.is_expired_at("T1", 1001).unwrap());
}

#[test]
fn badge_status_lines() {
    let mut m = BadgeManager::new();
    m.add_badge_at("P", "perm", None, 0).unwrap();
    m.add_badge_at("T", "temp", Some(100_000 * S), 0).unwrap();
    m.add_badge_at("D", "off", None, 0).unwrap();
    m.disable_badge("D").unwrap();
    assert_eq!(m.badge_status_at("P", 50).unwrap(), "PERMANENT");
    assert_eq!(m.badge_status_at("D", 50).unwrap(), "DISABLED");
    // 100000 - 10000 = 90000 s = 25 h 0 m
    assert_eq!(m.badge_status_at("T", 10_000 * S).unwrap(), "TEMP (25h 00m)");
    // 100000 - 96400 = 3600 s = 1 h 0 m; 100000 - 99000 = 1000 s = 0 h 16 m
    assert_eq!(m.badge_status_at("T", 96_400 * S).unwrap(), "TEMP (01h 00m)");
    assert_eq!(m.badge_status_at("T", 99_000 * S).unwrap(), "TEMP (00h 16m)");
    // Half a second short of a full minute left: still 0 minutes shown.
    assert_eq!(m.badge_status_at("T", 99_940 * S + S / 2).unwrap(), "TEMP (00h 00m)");
    // The last nanosecond is still valid; one more and the badge has expired.
    assert_eq!(m.badge_status_at("T", 100_000 * S).unwrap(), "TEMP (00h 00m)");
    assert_eq!(m.badge_status_at("T", 100_000 * S + 1).unwrap(), "EXPIRED");
    assert_eq!(m.badge_status("P").unwrap(), "PERMANENT");
}

#[test]
fn counts_and_cleanup() {
    let mut m = BadgeManager::new();
    m.add_badge_at("A", "a", None, 0).unwrap();
    m.add_badge_at("B", "b", Some(10), 0).unwrap();
    m.add_badge_at("C", "c", Some(100), 0).unwrap();
    m.disable_badge("A").unwrap();
    assert_eq!(m.badge_count().unwrap(), 3);
    assert_eq!(m.enabled_badge_count().unwrap(), 2);
    let before = m.revision();
    assert_eq!(m.cleanup_expired_badges_at(50).unwrap(), 1);
    assert_ne!(m.revision(), before);
    assert!(m.get_badge("B").unwrap().is_none());
    assert!(m.get_badge("C").unwrap().is_some());
    let same = m.revision();
    assert_eq!(m.cleanup_expired_badges_at(50).unwrap(), 0);
    assert_eq!(m.revision(), same);
    assert_eq!(m.badge_count().unwrap(), 2);
}

#[test]
fn all_badges_newest_first() {
    let mut m = BadgeManager::new();
    m.add_badge_at("OLD", "o", None, 10).unwrap();
    m.add_badge_at("NEW", "n", None, 30).unwrap();
    m.add_badge_at("MID", "m", None, 20).unwrap();
    let all = m.get_all_badges().unwrap();
    let uids: Vec<&str> = all.iter().map(|b| b.uid.as_str()).collect();
    assert_eq!(uids, vec!["NEW", "MID", "OLD"]);
}

#[test]
fn last_use_is_recorded() {
    let mut m = BadgeManager::new();
    m.add_badge_at("U", "u", None, 0).unwrap();
    m.update_last_used_at("U", 77).unwrap();
    assert_eq!(m.get_badge("U").unwrap().unwrap().last_used, Some(77));
}

#[test]
fn from_badges_rejects_duplicates() {
    let b = |id: i32, uid: &str| Badge {
        id,
        uid: uid.to_string(),
        name: "n".to_string(),
        created_at: 0,
        last_used: None,
        expires_at: None,
        enabled: true,
    };
    assert!(matches!(BadgeManager::from_badges(vec![b(1, "X"), b(2, "X")]), Err(BadgeError::DuplicateUid)));
    let m = BadgeManager::from_badges(vec![b(1, "X"), b(2, "Y")]).unwrap();
    assert_eq!(m.badge_count().unwrap(), 2);
}

#[test]
fn clock_is_used_for_creation() {
    let mut m = BadgeManager::new();
    let before = unix_now();
    let b = m.add_badge("C", "clock").unwrap();
    assert!(b.created_at >= before);
    assert!(b.created_at <= unix_now());
}

#[test]
fn rfc3339_wrappers() {
    let row_at = |t: i128| {
        let b = Badge { id: 1, uid: "U".to_string(), name: "u".to_string(), created_at: t, last_used: None, expires_at: None, enabled: true };
        encode_badge_row(&b).unwrap().created_at
    };
    assert_eq!(row_at(0), "1970-01-01T00:00:00+00:00");
    assert_eq!(row_at((86_400 + 3_661) * S), "1970-01-02T01:01:01+00:00");
    assert_eq!(row_at(1_709_632_800 * S + 123_456_000), "2024-03-05T10:00:00.123456+00:00");
    assert_eq!(row_at(-S / 2), "1969-12-31T23:59:59.500+00:00");
    assert_eq!(parse_datetime("1970-01-02T01:01:01+00:00").unwrap(), 90_061 * S);
    assert_eq!(parse_datetime("2024-03-05T10:00:00.123456+00:00").unwrap(), 1_709_632_800 * S + 123_456_000);
    assert_eq!(parse_datetime("1969-12-31T23:59:59.5+00:00").unwrap(), -S / 2);
    assert_eq!(parse_datetime("1970-01-01T01:00:00+01:00").unwrap(), 0);
    assert!(parse_datetime("yesterday").is_err());
}

#[test]
fn add_days_wrapper() {
    let form = |days: &str| BadgeField {
        uid: "U".to_string(),
        name: "u".to_string(),
        expiry_days: days.to_string(),
        selected_field: 1,
    };
    assert_eq!(expiry_of_form(&form("3"), 0), Some(259_200 * S));
    assert_eq!(expiry_of_form(&form("3"), 7), Some(259_200 * S + 7));
    assert_eq!(expiry_of_form(&form("0"), 1_000), Some(1_000));
    assert_eq!(expiry_of_form(&form("-2"), 1_000_000 * S), Some((1_000_000 - 172_800) * S));
    assert_eq!(expiry_of_form(&form(""), 1_000), None);
    assert_eq!(expiry_of_form(&form("1"), 8_210_266_876_799 * S), None);
    assert_eq!(expiry_of_form(&form("1"), 8_210_266_790_399 * S + 5), Some(8_210_266_876_799 * S + 5));
}

#[test]
fn row_roundtrip() {
    let b = Badge {
        id: 7,
        uid: "ABCDEF".to_string(),
        name: "Alice".to_string(),
        created_at: 1_700_000_000 * S,
        last_used: Some(1_700_000_100 * S + 250_000_000),
        expires_at: None,
        enabled: false,
    };
    let row = encode_badge_row(&b).unwrap();
    assert_eq!(row.created_at, "2023-11-14T22:13:20+00:00");
    assert_eq!(row.last_used.as_deref(), Some("2023-11-14T22:15:00.250+00:00"));
    assert_eq!(row.enabled, 0);
    assert_eq!(row.expires_at, None);
    let back = decode_badge_row(&row).unwrap();
    assert_eq!(back.id, 7);
    assert_eq!(back.created_at, b.created_at);
    assert_eq!(back.last_used, b.last_used);
    assert!(!back.enabled);
}

#[test]
fn row_with_bad_date_is_refused() {
    let row = BadgeRow {
        id: 1,
        uid: "A".to_string(),
        name: "a".to_string(),
        created_at: "not a date".to_string(),
        last_used: None,
        expires_at: None,
        enabled: 1,
    };
    assert!(matches!(decode_badge_row(&row), Err(BadgeError::InvalidDate)));
}

#[test]
fn rows_written_across_chrono_range() {
    let at = |t: i128| Badge { id: 1, uid: "U".to_string(), name: "u".to_string(), created_at: t, last_used: None, expires_at: None, enabled: true };
    assert!(encode_badge_row(&at(8_210_266_876_799 * S + S - 1)).is_ok());
    assert!(matches!(encode_badge_row(&at(8_210_266_876_800 * S)), Err(BadgeError::InvalidDate)));
    assert!(encode_badge_row(&at(-8_334_601_228_800 * S)).is_ok());
    assert!(matches!(encode_badge_row(&at(-8_334_601_228_800 * S - 1)), Err(BadgeError::InvalidDate)));
    assert_eq!(encode_badge_row(&at(-S)).unwrap().created_at, "1969-12-31T23:59:59+00:00");
}

#[test]
fn error_messages() {
    assert_eq!(BadgeError::EmptyUid.message(), "Badge UID cannot be empty");
    assert_eq!(BadgeError::EmptyName.message(), "Badge name cannot be empty");
    assert_eq!(BadgeError::NotFound("AB".to_string()).message(), "Badge with UID 'AB' not found");
    assert_eq!(BadgeError::InvalidDate.message(), "Failed to parse datetime");
    let mut m = BadgeManager::new();
    assert_eq!(m.remove_badge("ZZ").unwrap_err().message(), "Badge with UID 'ZZ' not found");
}

#[test]
fn enabled_count_matches_listing_rows() {
    let mut m = BadgeManager::new();
    m.add_badge_at("A", "a", None, 1).unwrap();
    m.add_badge_at("B", "b", Some(5), 2).unwrap();
    m.add_badge_at("C", "c", None, 3).unwrap();
    m.disable_badge("C").unwrap();
    let enabled_rows = m.get_all_badges().unwrap().iter().filter(|b| b.enabled).count();
    assert_eq!(m.enabled_badge_count().unwrap(), enabled_rows);
    assert_eq!(enabled_rows, 2);
    assert!(m.enabled_badge_count().unwrap() <= m.badge_count().unwrap());
}

#[test]
fn add_badge_is_permanent() {
    let mut m = BadgeManager::new();
    let b = m.add_badge("P", "perm").unwrap();
    assert_eq!(b.expires_at, None);
    assert_eq!(m.is_expired("P").unwrap(), false);
    assert_eq!(m.badge_status("P").unwrap(), "PERMANENT");
    assert!(matches!(m.add_badge("P", "again"), Err(BadgeError::DuplicateUid)));
}
