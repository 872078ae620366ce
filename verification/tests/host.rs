use ascii_deck::host::{
    battery_reading, brightness_levels, config_root, max_brightness_or_default,
    parse_sysfs_number, select_session, ChargeState,
};
use ascii_deck::types::BatteryState;

#[test]
fn sysfs_numbers() {
    assert_eq!(parse_sysfs_number("42\n"), Some(42));
    assert_eq!(parse_sysfs_number("  7 \t\n"), Some(7));
    assert_eq!(parse_sysfs_number("+7"), Some(7));
    assert_eq!(parse_sysfs_number("+"), None);
    assert_eq!(parse_sysfs_number("-1"), None);
    assert_eq!(parse_sysfs_number(""), None);
    assert_eq!(parse_sysfs_number("   "), None);
    assert_eq!(parse_sysfs_number("00012"), Some(12));
    assert_eq!(parse_sysfs_number("4294967295"), Some(u32::MAX));
    assert_eq!(parse_sysfs_number("4294967296"), None);
    assert_eq!(parse_sysfs_number("99999999999999999999999"), None);
    assert_eq!(parse_sysfs_number("1 2"), None);
    assert_eq!(parse_sysfs_number("\u{a0}5\u{3000}"), Some(5));
}

#[test]
fn sysfs_numbers_match_std() {
    let samples = [
        "0", "1", "12", "+12", "++1", "+-1", "-0", "1a", "a1", " 1", "1 ", "\n\n255\n",
        "4294967295", "4294967296", "04294967295", "\u{2003}8\u{2029}", "\u{85}3", "\u{200b}3",
        "١٢", "1_000", "+", "", " + 1", "\u{1680}", "12\u{feff}",
    ];
    for t in samples {
        assert_eq!(parse_sysfs_number(t), t.trim().parse::<u32>().ok(), "input {:?}", t);
    }
    for n in [0u32, 5, 100, 65535, 1_000_000, u32::MAX] {
        assert_eq!(parse_sysfs_number(&format!("{}\n", n)), Some(n));
    }
}

#[test]
fn brightness_level_reading() {
    assert_eq!(brightness_levels("120\n", "255\n"), Some((120, 255)));
    assert_eq!(brightness_levels("120\n", "0\n"), None);
    assert_eq!(brightness_levels("x", "255"), None);
    assert_eq!(brightness_levels("3", "y"), None);
    assert_eq!(max_brightness_or_default(Some("937\n")), 937);
    assert_eq!(max_brightness_or_default(Some("oops")), 100);
    assert_eq!(max_brightness_or_default(None), 100);
}

#[test]
fn battery_readings() {
    let t = Some(7.5f32.to_bits());
    let e = Some(9.0f32.to_bits());
    assert_eq!(
        battery_reading(80, ChargeState::Charging, t, e, Some(50), Some(88)),
        BatteryState { percentage: 80, is_charging: true, time_remaining: t, capacity_wh: Some(50), health_percent: Some(88) }
    );
    assert_eq!(
        battery_reading(80, ChargeState::Discharging, t, e, None, None),
        BatteryState { percentage: 80, is_charging: false, time_remaining: e, capacity_wh: None, health_percent: None }
    );
    assert_eq!(
        battery_reading(100, ChargeState::Full, t, e, None, None),
        BatteryState { percentage: 100, is_charging: true, time_remaining: None, capacity_wh: None, health_percent: None }
    );
    for st in [ChargeState::Unknown, ChargeState::Empty, ChargeState::Paused] {
        assert_eq!(
            battery_reading(3, st, t, e, None, Some(70)),
            BatteryState { percentage: 3, is_charging: false, time_remaining: None, capacity_wh: None, health_percent: Some(70) }
        );
    }
}

#[test]
fn session_selection() {
    let ids: Vec<String> = vec!["c1".to_string(), "4".to_string(), "7".to_string(), "4".to_string()];
    assert_eq!(select_session(&ids, Some(&"4".to_string())), Some(1));
    assert_eq!(select_session(&ids, Some(&"9".to_string())), Some(0));
    assert_eq!(select_session(&ids, None), Some(0));
    assert_eq!(select_session(&Vec::new(), Some(&"4".to_string())), None);
    assert_eq!(select_session(&Vec::new(), None), None);
}

#[test]
fn config_roots() {
    assert_eq!(config_root(Some("/x/cfg".to_string()), Some("/home/u".to_string())), "/x/cfg");
    assert_eq!(config_root(None, Some("/home/u".to_string())), "/home/u/.config");
    assert_eq!(config_root(None, None), "/.config");
}
