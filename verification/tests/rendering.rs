use ascii_deck::applet::{BatteryApplet, Message};
use ascii_deck::config::AppletConfig;
use ascii_deck::deck::{
    battery_state_caption, brightness_caption, color_options, dimension_label, dot_font_size,
    dot_glyph, dot_grid, order_row_label, profile_label, slider_segments, time_label,
    toggle_label, Dimension,
};
use ascii_deck::panel::{
    accent_or_tier_color, battery_label, brightness_label, panel_items, PanelInput, TextColor,
};
use ascii_deck::popup::{main_deck, popup_frame, settings_deck, step_message};
use ascii_deck::deck::{capacity_caption, header_buttons, health_caption, switch_label, vertical_battery};
use ascii_deck::types::PopupTab;
use ascii_deck::types::{get_tier_color, DotSize, PanelModule, Rgb8};

fn s(chars: &[char]) -> String {
    chars.iter().collect()
}

fn expected_battery(pct: u32, charging: bool, filled: usize, blocks: usize) -> String {
    let pct = pct.min(100);
    let status_char = if charging { "\u{26A1}" } else { " " };
    format!(
        "{:>3}% {}[{}{}]",
        pct,
        status_char,
        "\u{2588}".repeat(filled),
        "\u{2591}".repeat(blocks.saturating_sub(filled))
    )
}

fn expected_brightness(pct: u32, filled: usize, blocks: usize) -> String {
    let pct = pct.min(100);
    format!(
        "\u{263C}{:>3}%[{}{}]",
        pct,
        "\u{2588}".repeat(filled),
        "\u{2591}".repeat(blocks.saturating_sub(filled))
    )
}

#[test]
fn battery_label_example() {
    assert_eq!(s(&battery_label(87, true, 9, 10)), "87% \u{26A1}[█████████░]".replacen("87", " 87", 1));
    assert_eq!(s(&battery_label(100, false, 10, 10)), "100%  [██████████]");
    assert_eq!(s(&battery_label(5, false, 1, 3)), "  5%  [█░░]");
}

#[test]
fn battery_label_matches_format() {
    for pct in [0u32, 1, 9, 10, 42, 99, 100, 101, 250, u32::MAX] {
        for blocks in [0usize, 1, 10, 30] {
            for filled in [0usize, 1, 5, 10, 31] {
                for charging in [false, true] {
                    assert_eq!(
                        s(&battery_label(pct, charging, filled, blocks)),
                        expected_battery(pct, charging, filled, blocks)
                    );
                }
                assert_eq!(s(&brightness_label(pct, filled, blocks)), expected_brightness(pct, filled, blocks));
            }
        }
    }
}

#[test]
fn tier_colors() {
    assert_eq!(get_tier_color(0), Rgb8 { r: 255, g: 60, b: 60 });
    assert_eq!(get_tier_color(20), Rgb8 { r: 255, g: 60, b: 60 });
    assert_eq!(get_tier_color(21), Rgb8 { r: 255, g: 165, b: 0 });
    assert_eq!(get_tier_color(50), Rgb8 { r: 255, g: 165, b: 0 });
    assert_eq!(get_tier_color(51), Rgb8 { r: 255, g: 220, b: 0 });
    assert_eq!(get_tier_color(70), Rgb8 { r: 255, g: 220, b: 0 });
    assert_eq!(get_tier_color(71), Rgb8 { r: 180, g: 220, b: 255 });
    assert_eq!(get_tier_color(500), Rgb8 { r: 180, g: 220, b: 255 });
}

#[test]
fn accent_overrides_tier() {
    assert_eq!(accent_or_tier_color(Some([1, 2, 3, 4]), 10), TextColor::Accent([1, 2, 3, 4]));
    assert_eq!(accent_or_tier_color(None, 10), TextColor::Tier(Rgb8 { r: 255, g: 60, b: 60 }));
}

fn input(bat: u32, charging: bool, bri: u32, bat_filled: usize, bri_filled: usize) -> PanelInput {
    PanelInput {
        battery_percentage: bat,
        is_charging: charging,
        brightness_percent: bri,
        battery_filled: bat_filled,
        brightness_filled: bri_filled,
    }
}

#[test]
fn panel_default_shows_battery_only() {
    let config = AppletConfig::default();
    let items = panel_items(&config, &input(87, true, 40, 9, 4));
    assert_eq!(items.len(), 1);
    assert_eq!(s(&items[0].text), expected_battery(87, true, 9, 10));
    assert_eq!(items[0].color, TextColor::Tier(Rgb8 { r: 180, g: 220, b: 255 }));
}

#[test]
fn panel_follows_order() {
    let mut config = AppletConfig::default();
    config.show_panel_brightness = true;
    config.panel_order = vec![PanelModule::Brightness, PanelModule::Battery];
    config.panel_block_count = 4;
    config.accent_color_rgba = Some([9, 9, 9, 9]);
    let items = panel_items(&config, &input(150, false, 40, 4, 2));
    assert_eq!(items.len(), 2);
    assert_eq!(s(&items[0].text), "\u{263C} 40%[██░░]");
    assert_eq!(s(&items[1].text), "100%  [████]");
    assert_eq!(items[0].color, TextColor::Accent([9, 9, 9, 9]));
}

#[test]
fn panel_placeholder_when_nothing_shown() {
    let mut config = AppletConfig::default();
    config.show_panel_battery = false;
    let items = panel_items(&config, &input(50, false, 50, 5, 5));
    assert_eq!(items.len(), 1);
    assert_eq!(s(&items[0].text), "ASCII");
    assert_eq!(items[0].color, TextColor::ThemeAccent);
    config.accent_color_rgba = Some([1, 1, 1, 1]);
    config.panel_order = vec![];
    let items = panel_items(&config, &input(50, false, 50, 5, 5));
    assert_eq!(s(&items[0].text), "ASCII");
    assert_eq!(items[0].color, TextColor::Accent([1, 1, 1, 1]));
}

#[test]
fn time_labels() {
    assert_eq!(s(&time_label(true, Some((1, 5)))), "Time to full: 1h 5m");
    assert_eq!(s(&time_label(false, Some((12, 0)))), "Time remaining: 12h 0m");
    assert_eq!(s(&time_label(false, None)), "Calculating time...");
    assert_eq!(s(&time_label(true, Some((u32::MAX, 59)))), format!("Time to full: {}h 59m", u32::MAX));
}

#[test]
fn captions() {
    assert_eq!(s(&profile_label(&"balanced".to_string())), "Profile: balanced");
    assert_eq!(s(&brightness_caption(140)), "Brightness: 140%");
    assert_eq!(s(&battery_state_caption(140)), "Battery State: 100%");
    assert_eq!(s(&battery_state_caption(7)), "Battery State: 7%");
    assert_eq!(s(&toggle_label(true, PanelModule::Battery)), "[x] Battery");
    assert_eq!(s(&toggle_label(false, PanelModule::Brightness)), "[ ] Brightness");
    assert_eq!(s(&order_row_label(0, PanelModule::Battery)), "1. Battery");
    assert_eq!(s(&order_row_label(9, PanelModule::Brightness)), "10. Brightness");
    assert_eq!(s(&dimension_label(Dimension::FontSize, 13)), "Text Size: 13");
    assert_eq!(s(&dimension_label(Dimension::BlockCount, 10)), "ASCII Blocks: 10");
    assert_eq!(s(&dimension_label(Dimension::Spacing, 0)), "Spacing: 0");
}

#[test]
fn slider_cells() {
    let cells = slider_segments(3);
    assert_eq!(cells.len(), 10);
    for (k, c) in cells.iter().enumerate() {
        assert_eq!(c.filled, k + 1 <= 3);
        assert_eq!(c.target_pct, 10 * (k as u32 + 1));
    }
    assert!(slider_segments(0).iter().all(|c| !c.filled));
    assert!(slider_segments(12).iter().all(|c| c.filled));
}

#[test]
fn grid_fills_first_dots() {
    for pct in [0u32, 1, 9, 10, 55, 99, 100, 300] {
        let rows = dot_grid(pct);
        assert_eq!(rows.len(), 10);
        let flat: Vec<bool> = rows.iter().flat_map(|r| r.iter().copied()).collect();
        assert_eq!(flat.len(), 100);
        let filled = pct.min(100) as usize;
        assert_eq!(flat.iter().filter(|b| **b).count(), filled);
        for (i, b) in flat.iter().enumerate() {
            assert_eq!(*b, i < filled);
        }
    }
    assert_eq!(dot_glyph(true), '\u{25CF}');
    assert_eq!(dot_glyph(false), '\u{25CB}');
}

#[test]
fn dot_sizes() {
    assert_eq!(dot_font_size(DotSize::Standard), 13);
    assert_eq!(dot_font_size(DotSize::Small), 9);
    assert_eq!(dot_font_size(DotSize::Tiny), 5);
}

#[test]
fn color_choices() {
    let opts = color_options();
    let labels: Vec<String> = opts.iter().map(|o| s(&o.label)).collect();
    assert_eq!(labels, vec!["Auto", "Blue", "Green", "Purple", "Pink", "Orange", "White", "Rust"]);
    assert_eq!(opts[0].color, None);
    assert_eq!(opts[7].color, Some(Rgb8 { r: 170, g: 69, b: 36 }));
}

#[test]
fn popup_pages() {
    let mut a: BatteryApplet<u64> = BatteryApplet::new(AppletConfig::default());
    a.update(Message::BrightnessPress(60));
    let deck = main_deck(&a, None, 6);
    assert_eq!(s(&deck.time), "Calculating time...");
    assert_eq!(s(&deck.capacity), "Capacity: unknown");
    assert_eq!(s(&deck.health), "Health: unknown");
    let profiles: Vec<(String, String)> =
        deck.profiles.iter().map(|p| (s(&p.label), p.sends.clone())).collect();
    assert_eq!(
        profiles,
        vec![
            ("Power Saver".to_string(), "power-saver".to_string()),
            ("Balanced".to_string(), "balanced".to_string()),
            ("Performance".to_string(), "performance".to_string()),
        ]
    );
    assert_eq!(deck.battery.len(), 14);
    assert_eq!(deck.battery_color, TextColor::Tier(Rgb8 { r: 180, g: 220, b: 255 }));
    assert_eq!(s(&deck.profile), "Profile: balanced");
    assert_eq!(s(&deck.brightness), "Brightness: 60%");
    assert_eq!(deck.slider.iter().filter(|c| c.filled).count(), 6);
    assert_eq!(deck.slider_color, TextColor::Tier(Rgb8 { r: 255, g: 220, b: 0 }));
    let grid = deck.grid.expect("the grid is shown by default");
    assert_eq!(s(&grid.caption), "Battery State: 100%");
    assert_eq!(grid.font_size, 13);
    a.update(Message::ToggleDotGrid(false));
    assert!(main_deck(&a, Some((2, 3)), 6).grid.is_none());

    let page = settings_deck(&a);
    assert_eq!(s(&page.battery_toggle), "[x] Battery");
    assert!(!page.battery_toggle_sends);
    assert_eq!(s(&page.brightness_toggle), "[ ] Brightness");
    assert!(page.brightness_toggle_sends);
    assert_eq!(page.dimensions.len(), 3);
    assert_eq!(s(&page.dimensions[0].label), "Text Size: 13");
    assert_eq!(s(&page.dimensions[1].label), "ASCII Blocks: 10");
    assert_eq!(s(&page.dimensions[2].label), "Spacing: 8");
    for row in &page.dimensions {
        assert_eq!((row.down, row.up), (-1, 1));
    }
    assert_eq!(page.dimensions[0].dimension, Dimension::FontSize);
    assert!(matches!(step_message::<u64>(Dimension::FontSize, -1), Message::AdjustFontSize(-1)));
    assert!(matches!(step_message::<u64>(Dimension::BlockCount, 1), Message::AdjustBlockCount(1)));
    assert!(matches!(step_message::<u64>(Dimension::Spacing, 1), Message::AdjustSpacing(1)));
    assert_eq!(s(&page.dot_grid_toggle), "[ ] Dot Grid");
    assert!(page.dot_grid_toggle_sends);
    let sizes: Vec<(String, DotSize, bool)> =
        page.dot_sizes.iter().map(|c| (s(&c.label), c.size, c.selected)).collect();
    assert_eq!(
        sizes,
        vec![
            ("Standard".to_string(), DotSize::Standard, true),
            ("Small".to_string(), DotSize::Small, false),
            ("Tiny".to_string(), DotSize::Tiny, false),
        ]
    );
    assert_eq!(s(&page.dark_mode_toggle), "[ ] Dark Mode");
    assert!(page.dark_mode_toggle_sends);
    assert_eq!(s(&page.monospace_toggle), "[ ] Monospace Font");
    assert!(page.monospace_toggle_sends);
    assert_eq!(page.order.len(), 2);
    assert_eq!(s(&page.order[1].label), "2. Brightness");
    assert_eq!(page.order[1].index, 1);
    assert_eq!(page.colors.len(), 8);
}

#[test]
fn panel_text_width_is_fixed() {
    for blocks in [1usize, 10, 30] {
        for pct in [0u32, 7, 55, 100, 1000] {
            let filled = ((pct.min(100) as f32 / 100.0) * blocks as f32).round() as usize;
            assert_eq!(battery_label(pct, true, filled, blocks).len(), blocks + 8);
            assert_eq!(battery_label(pct, false, filled, blocks).len(), blocks + 8);
            assert_eq!(brightness_label(pct, filled, blocks).len(), blocks + 7);
        }
    }
}

#[test]
fn frame_and_header() {
    let mut a: BatteryApplet<u64> = BatteryApplet::new(AppletConfig::default());
    let header = header_buttons();
    assert_eq!(header.len(), 2);
    assert_eq!(s(&header[0].label), "Control Deck");
    assert_eq!(header[0].sends, PopupTab::Main);
    assert_eq!(s(&header[1].label), "Customization");
    assert_eq!(header[1].sends, PopupTab::Settings);
    assert_eq!(popup_frame(&a).page, PopupTab::Main);
    a.update(Message::SwitchTab(PopupTab::Settings));
    assert_eq!(popup_frame(&a).page, PopupTab::Settings);
}

#[test]
fn capacity_and_health_captions() {
    assert_eq!(s(&capacity_caption(Some(57))), "Capacity: 57 Wh");
    assert_eq!(s(&capacity_caption(None)), "Capacity: unknown");
    assert_eq!(s(&health_caption(Some(93))), "Health: 93%");
    assert_eq!(s(&health_caption(None)), "Health: unknown");
    assert_eq!(s(&switch_label(true, "Dark Mode")), "[x] Dark Mode");
}

#[test]
fn vertical_battery_rows() {
    let rows: Vec<String> = vertical_battery(35, true).iter().map(|r| s(r)).collect();
    assert_eq!(rows.len(), 14);
    assert_eq!(rows[0], " \u{250C}\u{2500}\u{2510} ");
    assert_eq!(rows[1], "\u{250C}\u{2518} \u{2514}\u{2510}");
    // 35 % fills the four lowest of the ten body rows.
    for r in 2..12 {
        let filled = 12 - r <= 4;
        let g = if filled { '\u{2588}' } else { ' ' };
        assert_eq!(rows[r], format!("\u{2502}{g}{g}{g}\u{2502}"));
    }
    assert_eq!(rows[12], "\u{2514}\u{2500}\u{2500}\u{2500}\u{2518}");
    assert_eq!(rows[13], "  \u{26A1}  ");
    let empty: Vec<String> = vertical_battery(0, false).iter().map(|r| s(r)).collect();
    assert!(empty[2..12].iter().all(|r| !r.contains('\u{2588}')));
    assert_eq!(empty[13], "     ");
    let full: Vec<String> = vertical_battery(250, false).iter().map(|r| s(r)).collect();
    assert!(full[2..12].iter().all(|r| r.contains('\u{2588}')));
}

#[test]
fn bar_cells_count_and_grow() {
    let count = |t: &[char], c: char| t.iter().filter(|x| **x == c).count();
    for blocks in [1usize, 10, 30] {
        let mut last_full = 0;
        for pct in 0u32..=120 {
            let filled = ((pct.min(100) as f32 / 100.0) * blocks as f32).round() as usize;
            let t = battery_label(pct, false, filled, blocks);
            let full = count(&t, '\u{2588}');
            assert_eq!(full + count(&t, '\u{2591}'), blocks);
            assert!(full >= last_full);
            last_full = full;
        }
    }
}
