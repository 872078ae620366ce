use ascii_deck::applet::{Action, BatteryApplet, Message};
use ascii_deck::config::AppletConfig;
use ascii_deck::types::{BatteryState, DotSize, PanelModule, PopupTab};

fn fresh() -> BatteryApplet<u64> {
    BatteryApplet::new(AppletConfig::default())
}

fn is_save(a: &Action<u64>) -> bool {
    matches!(a, Action::SaveConfig)
}

fn is_nothing(a: &Action<u64>) -> bool {
    matches!(a, Action::Nothing)
}

#[test]
fn default_enums() {
    assert_eq!(PopupTab::default(), PopupTab::Main);
    assert_eq!(DotSize::default(), DotSize::Standard);
}

#[test]
fn default_config_values() {
    let c = AppletConfig::default();
    assert!(c.show_panel_battery);
    assert!(!c.show_panel_brightness);
    assert_eq!(c.panel_order, vec![PanelModule::Battery, PanelModule::Brightness]);
    assert!(c.show_dot_grid);
    assert_eq!(c.dot_size, DotSize::Standard);
    assert_eq!(c.accent_color_rgba, None);
    assert_eq!(c.panel_font_size, 13);
    assert_eq!(c.panel_block_count, 10);
    assert_eq!(c.panel_spacing, 8);
    assert!(!c.dark_mode);
    assert!(!c.monospace_font);
}

#[test]
fn launch_state() {
    let (a, act): (BatteryApplet<u64>, Action<u64>) = BatteryApplet::init(AppletConfig::default());
    assert!(matches!(act, Action::FetchAll));
    assert_eq!(a.active_tab(), PopupTab::Main);
    assert_eq!(a.battery_percentage(), 100);
    assert!(!a.is_charging());
    assert_eq!(a.time_remaining(), None);
    assert_eq!(a.capacity_wh(), None);
    assert_eq!(a.health_percent(), None);
    assert_eq!(a.active_profile().as_str(), "balanced");
    assert_eq!(a.brightness_percent(), 100);
    assert_eq!(a.popup(), None);
    assert!(!a.is_dragging_brightness());
}

#[test]
fn tick_asks_for_readings_only() {
    let mut a = fresh();
    let act = a.update(Message::Tick);
    assert!(matches!(act, Action::FetchAll));
    assert_eq!(a.battery_percentage(), 100);
    assert_eq!(a.brightness_percent(), 100);
}

#[test]
fn battery_reading_is_stored() {
    let mut a = fresh();
    let bits = 1234.5f32.to_bits();
    let act = a.update(Message::BatteryFetched(Some(BatteryState {
        percentage: 87,
        is_charging: true,
        time_remaining: Some(bits),
        capacity_wh: Some(52),
        health_percent: Some(91),
    })));
    assert!(is_nothing(&act));
    assert_eq!(a.battery_percentage(), 87);
    assert!(a.is_charging());
    assert_eq!(a.time_remaining(), Some(bits));
    assert_eq!(a.capacity_wh(), Some(52));
    assert_eq!(a.health_percent(), Some(91));
    let act = a.update(Message::BatteryFetched(None));
    assert!(is_nothing(&act));
    assert_eq!(a.battery_percentage(), 87);
}

#[test]
fn profile_reading_and_choice() {
    let mut a = fresh();
    a.update(Message::ProfileFetched(Some("performance".to_string())));
    assert_eq!(a.active_profile().as_str(), "performance");
    a.update(Message::ProfileFetched(None));
    assert_eq!(a.active_profile().as_str(), "performance");
    let act = a.update(Message::SetProfile("power-saver".to_string()));
    assert_eq!(a.active_profile().as_str(), "power-saver");
    match act {
        Action::ApplyProfile(p) => assert_eq!(p, "power-saver"),
        _ => panic!("expected a profile change"),
    }
}

#[test]
fn brightness_press_caps_at_100_and_drags() {
    let mut a = fresh();
    let act = a.update(Message::BrightnessPress(150));
    assert!(matches!(act, Action::ApplyBrightness(100)));
    assert_eq!(a.brightness_percent(), 100);
    assert!(a.is_dragging_brightness());
    let act = a.update(Message::BrightnessDragOver(30));
    assert!(matches!(act, Action::ApplyBrightness(30)));
    assert_eq!(a.brightness_percent(), 30);
}

#[test]
fn reading_does_not_move_a_dragged_slider() {
    let mut a = fresh();
    a.update(Message::BrightnessPress(40));
    a.update(Message::BrightnessFetched(Some(90)));
    assert_eq!(a.brightness_percent(), 40);
    a.update(Message::BrightnessDragEnd);
    assert!(!a.is_dragging_brightness());
    a.update(Message::BrightnessFetched(Some(90)));
    assert_eq!(a.brightness_percent(), 90);
    a.update(Message::BrightnessFetched(None));
    assert_eq!(a.brightness_percent(), 90);
}

#[test]
fn drag_over_without_press_is_ignored() {
    let mut a = fresh();
    let act = a.update(Message::BrightnessDragOver(20));
    assert!(is_nothing(&act));
    assert_eq!(a.brightness_percent(), 100);
}

#[test]
fn toggle_menu_opens_then_closes_the_same_popup() {
    let mut a = fresh();
    let act = a.update(Message::ToggleMenu(7));
    assert!(matches!(act, Action::OpenPopup(7)));
    assert_eq!(a.popup(), Some(7));
    let act = a.update(Message::ToggleMenu(8));
    assert!(matches!(act, Action::DestroyPopup(7)));
    assert_eq!(a.popup(), None);
}

#[test]
fn switch_tab() {
    let mut a = fresh();
    let act = a.update(Message::SwitchTab(PopupTab::Settings));
    assert!(is_nothing(&act));
    assert_eq!(a.active_tab(), PopupTab::Settings);
}

#[test]
fn settings_messages_save() {
    let mut a = fresh();
    assert!(is_save(&a.update(Message::SetAccentColor(Some([1, 2, 3, 4])))));
    assert_eq!(a.config().accent_color_rgba, Some([1, 2, 3, 4]));
    assert!(is_save(&a.update(Message::TogglePanelBattery(false))));
    assert!(!a.config().show_panel_battery);
    assert!(is_save(&a.update(Message::TogglePanelBrightness(true))));
    assert!(a.config().show_panel_brightness);
    assert!(is_save(&a.update(Message::ToggleDotGrid(false))));
    assert!(!a.config().show_dot_grid);
    assert!(is_save(&a.update(Message::SetDotSize(DotSize::Tiny))));
    assert_eq!(a.config().dot_size, DotSize::Tiny);
    assert!(is_save(&a.update(Message::ToggleDarkMode(true))));
    assert!(a.config().dark_mode);
    assert!(is_save(&a.update(Message::ToggleMonospaceFont(true))));
    assert!(a.config().monospace_font);
}

#[test]
fn move_modules() {
    let mut a = fresh();
    assert!(is_nothing(&a.update(Message::MoveModuleLeft(0))));
    assert!(is_nothing(&a.update(Message::MoveModuleRight(1))));
    assert!(is_nothing(&a.update(Message::MoveModuleLeft(5))));
    assert_eq!(a.config().panel_order, vec![PanelModule::Battery, PanelModule::Brightness]);
    assert!(is_save(&a.update(Message::MoveModuleRight(0))));
    assert_eq!(a.config().panel_order, vec![PanelModule::Brightness, PanelModule::Battery]);
    assert!(is_save(&a.update(Message::MoveModuleLeft(1))));
    assert_eq!(a.config().panel_order, vec![PanelModule::Battery, PanelModule::Brightness]);
}

#[test]
fn move_left_then_right_restores_order() {
    let mut config = AppletConfig::default();
    config.panel_order = vec![
        PanelModule::Battery,
        PanelModule::Brightness,
        PanelModule::Brightness,
        PanelModule::Battery,
    ];
    let mut a: BatteryApplet<u64> = BatteryApplet::new(config);
    a.update(Message::MoveModuleLeft(3));
    assert_eq!(
        a.config().panel_order,
        vec![PanelModule::Battery, PanelModule::Brightness, PanelModule::Battery, PanelModule::Brightness]
    );
    a.update(Message::MoveModuleRight(2));
    assert_eq!(
        a.config().panel_order,
        vec![PanelModule::Battery, PanelModule::Brightness, PanelModule::Brightness, PanelModule::Battery]
    );
}

#[test]
fn dimensions_are_clamped() {
    let mut a = fresh();
    for _ in 0..20 {
        a.update(Message::AdjustFontSize(1));
        a.update(Message::AdjustBlockCount(1));
        a.update(Message::AdjustSpacing(1));
    }
    assert_eq!(a.config().panel_font_size, 24);
    assert_eq!(a.config().panel_block_count, 30);
    assert_eq!(a.config().panel_spacing, 28);
    for _ in 0..40 {
        a.update(Message::AdjustFontSize(-1));
        a.update(Message::AdjustBlockCount(-1));
        a.update(Message::AdjustSpacing(-1));
    }
    assert_eq!(a.config().panel_font_size, 6);
    assert_eq!(a.config().panel_block_count, 1);
    assert_eq!(a.config().panel_spacing, 0);
}

#[test]
fn dimension_step_from_a_loaded_value() {
    let mut config = AppletConfig::default();
    config.panel_block_count = 70000;
    config.panel_font_size = 100;
    let mut a: BatteryApplet<u64> = BatteryApplet::new(config);
    // 70000 read as an i16 is 4464, which clamps to 30.
    assert!(is_save(&a.update(Message::AdjustBlockCount(1))));
    assert_eq!(a.config().panel_block_count, 30);
    a.update(Message::AdjustFontSize(-1));
    assert_eq!(a.config().panel_font_size, 24);
}

#[test]
fn accepts_rejects_overflowing_steps() {
    let mut config = AppletConfig::default();
    config.panel_font_size = 32767;
    config.panel_spacing = 32768;
    let a: BatteryApplet<u64> = BatteryApplet::new(config);
    assert!(!a.accepts(&Message::AdjustFontSize(1)));
    assert!(a.accepts(&Message::AdjustFontSize(-1)));
    assert!(!a.accepts(&Message::AdjustSpacing(-1)));
    assert!(a.accepts(&Message::AdjustSpacing(1)));
    assert!(!a.accepts(&Message::MoveModuleRight(usize::MAX)));
    assert!(a.accepts(&Message::MoveModuleRight(0)));
    assert!(a.accepts(&Message::Tick));
}
