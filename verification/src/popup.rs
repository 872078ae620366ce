use vstd::prelude::*;
use crate::applet::{BatteryApplet, Message};
use crate::types::PopupTab;
use crate::deck::{
    HeaderButton, header_buttons, header_spec, ColorOption, Dimension, DotSizeChoice, ProfileChoice, SliderSegment, battery_state_caption,
    brightness_caption, capacity_caption, color_options, color_options_spec, dimension_label,
    dimension_name, dot_font_size, dot_font_size_spec, dot_grid, dot_size_choices, dot_size_spec,
    grid_spec, health_caption, module_name, optional_value_text, order_row_label, profile_choices,
    profile_choices_spec, profile_label, slider_segments, slider_spec, switch_label, switch_text,
    time_label, time_text, toggle_label, toggle_text, vertical_battery, vertical_battery_spec,
};
use crate::panel::{TextColor, accent_or_tier, accent_or_tier_color};
use crate::text::decimal;
use crate::types::{PanelModule, cap_percent, capped_percent};

verus! {

/// The charge grid of the popup's main page.
pub struct DotGrid {
    /// `Battery State: {pct}%`.
    pub caption: Vec<char>,
    pub font_size: u16,
    /// Ten rows of ten cells; `true` for a filled dot.
    pub rows: Vec<Vec<bool>>,
    pub color: TextColor,
}

/// The contents of the popup's main page.
pub struct MainDeck {
    pub time: Vec<char>,
    /// `Capacity: ...` of the last reading.
    pub capacity: Vec<char>,
    /// `Health: ...` of the last reading.
    pub health: Vec<char>,
    /// The vertical ASCII battery, row by row.
    pub battery: Vec<Vec<char>>,
    /// The colour of the vertical battery.
    pub battery_color: TextColor,
    pub profile: Vec<char>,
    /// The power profile buttons.
    pub profiles: Vec<ProfileChoice>,
    pub brightness: Vec<char>,
    pub slider: Vec<SliderSegment>,
    pub slider_color: TextColor,
    /// Present where the settings show the grid.
    pub grid: Option<DotGrid>,
}

/// Whether `deck` is the main page of `applet`, given the rounded slider fill
/// and the hours and minutes of the remaining time.
pub open spec fn is_main_deck<P>(
    applet: BatteryApplet<P>,
    hours_minutes: Option<(u32, u32)>,
    slider_filled: usize,
    deck: MainDeck,
) -> bool {
    let s = applet@;
    &&& deck.time@ == time_text(s.is_charging, hours_minutes)
    &&& deck.capacity@ == optional_value_text("Capacity: "@, s.capacity_wh, " Wh"@)
    &&& deck.health@ == optional_value_text("Health: "@, s.health_percent, "%"@)
    &&& deck.battery@.map_values(|row: Vec<char>| row@) == vertical_battery_spec(
        s.battery_percentage,
        s.is_charging,
    )
    &&& deck.battery_color == accent_or_tier(
        s.config.accent_color_rgba,
        capped_percent(s.battery_percentage),
    )
    &&& deck.profile@ == "Profile: "@ + s.active_profile
    &&& deck.profiles@.len() == profile_choices_spec().len()
    &&& forall|i: int|
        0 <= i < deck.profiles@.len() ==> (#[trigger] deck.profiles@[i]).label@
            == profile_choices_spec()[i].0 && deck.profiles@[i].sends@
            == profile_choices_spec()[i].1
    &&& deck.brightness@ == "Brightness: "@ + decimal(s.brightness_percent as nat) + "%"@
    &&& deck.slider@ == slider_spec(slider_filled)
    &&& deck.slider_color == accent_or_tier(s.config.accent_color_rgba, s.brightness_percent)
    &&& match deck.grid {
        Some(g) => {
            &&& s.config.show_dot_grid
            &&& g.caption@ == "Battery State: "@ + decimal(capped_percent(s.battery_percentage) as nat)
                + "%"@
            &&& g.font_size == dot_font_size_spec(s.config.dot_size)
            &&& g.rows@.map_values(|row: Vec<bool>| row@) == grid_spec(s.battery_percentage)
            &&& g.color == accent_or_tier(
                s.config.accent_color_rgba,
                capped_percent(s.battery_percentage),
            )
        },
        None => !s.config.show_dot_grid,
    }
}

/// The popup's main page.  `hours_minutes` is the remaining time split as
/// `time_label` says, and `slider_filled` is `round(brightness / 100 * 10)`,
/// both computed by the host from floating-point values.
pub fn main_deck<P: Copy>(
    applet: &BatteryApplet<P>,
    hours_minutes: Option<(u32, u32)>,
    slider_filled: usize,
) -> (deck: MainDeck)
    ensures
        is_main_deck(*applet, hours_minutes, slider_filled, deck),
{
    let config = applet.config();
    let pct = applet.battery_percentage();
    let brightness = applet.brightness_percent();
    let grid = if config.show_dot_grid {
        Some(
            DotGrid {
                caption: battery_state_caption(pct),
                font_size: dot_font_size(config.dot_size),
                rows: dot_grid(pct),
                color: accent_or_tier_color(config.accent_color_rgba, cap_percent(pct)),
            },
        )
    } else {
        None
    };
    MainDeck {
        time: time_label(applet.is_charging(), hours_minutes),
        capacity: capacity_caption(applet.capacity_wh()),
        health: health_caption(applet.health_percent()),
        battery: vertical_battery(pct, applet.is_charging()),
        battery_color: accent_or_tier_color(config.accent_color_rgba, cap_percent(pct)),
        profile: profile_label(applet.active_profile()),
        profiles: profile_choices(),
        brightness: brightness_caption(brightness),
        slider: slider_segments(slider_filled),
        slider_color: accent_or_tier_color(config.accent_color_rgba, brightness),
        grid,
    }
}

/// A line of the module order list.
pub struct OrderRow {
    /// `{place}. {name}`.
    pub label: Vec<char>,
    /// The module's index, which its left and right buttons send.
    pub index: usize,
}

/// A line of the dimension list: a caption and its value, and the steps that
/// its `-` and `+` buttons send.
pub struct DimensionRow {
    pub dimension: Dimension,
    pub label: Vec<char>,
    pub down: i16,
    pub up: i16,
}

/// The message that steps a dimension by `delta`.
pub open spec fn step_message_spec<P>(d: Dimension, delta: i16) -> Message<P> {
    match d {
        Dimension::FontSize => Message::AdjustFontSize(delta),
        Dimension::BlockCount => Message::AdjustBlockCount(delta),
        Dimension::Spacing => Message::AdjustSpacing(delta),
    }
}

/// The message that steps a dimension by `delta`.
pub fn step_message<P>(d: Dimension, delta: i16) -> (m: Message<P>)
    ensures
        m == step_message_spec::<P>(d, delta),
{
    match d {
        Dimension::FontSize => Message::AdjustFontSize(delta),
        Dimension::BlockCount => Message::AdjustBlockCount(delta),
        Dimension::Spacing => Message::AdjustSpacing(delta),
    }
}

fn dimension_row(d: Dimension, value: usize) -> (row: DimensionRow)
    ensures
        row.dimension == d,
        row.label@ == dimension_name(d) + decimal(value as nat),
        row.down == -1,
        row.up == 1,
{
    DimensionRow { dimension: d, label: dimension_label(d, value), down: -1, up: 1 }
}

/// The contents of the popup's settings page.
pub struct SettingsDeck {
    pub battery_toggle: Vec<char>,
    /// The value that a click on the battery switch sends.
    pub battery_toggle_sends: bool,
    pub brightness_toggle: Vec<char>,
    /// The value that a click on the brightness switch sends.
    pub brightness_toggle_sends: bool,
    /// Text size, bar cells and spacing, in that order.
    pub dimensions: Vec<DimensionRow>,
    pub order: Vec<OrderRow>,
    pub dot_grid_toggle: Vec<char>,
    /// The value that a click on the dot grid switch sends.
    pub dot_grid_toggle_sends: bool,
    pub dot_sizes: Vec<DotSizeChoice>,
    pub dark_mode_toggle: Vec<char>,
    /// The value that a click on the dark mode switch sends.
    pub dark_mode_toggle_sends: bool,
    pub monospace_toggle: Vec<char>,
    /// The value that a click on the monospace font switch sends.
    pub monospace_toggle_sends: bool,
    pub colors: Vec<ColorOption>,
}

/// Whether `deck` is the settings page of `applet`.
pub open spec fn is_settings_deck<P>(applet: BatteryApplet<P>, deck: SettingsDeck) -> bool {
    let c = applet@.config;
    &&& deck.battery_toggle@ == toggle_text(c.show_panel_battery, PanelModule::Battery)
    &&& deck.battery_toggle_sends == !c.show_panel_battery
    &&& deck.brightness_toggle@ == toggle_text(c.show_panel_brightness, PanelModule::Brightness)
    &&& deck.brightness_toggle_sends == !c.show_panel_brightness
    &&& deck.dimensions@.len() == 3
    &&& deck.dimensions@[0].dimension == Dimension::FontSize
    &&& deck.dimensions@[0].label@ == dimension_name(Dimension::FontSize) + decimal(
        c.panel_font_size as nat,
    )
    &&& deck.dimensions@[1].dimension == Dimension::BlockCount
    &&& deck.dimensions@[1].label@ == dimension_name(Dimension::BlockCount) + decimal(
        c.panel_block_count as nat,
    )
    &&& deck.dimensions@[2].dimension == Dimension::Spacing
    &&& deck.dimensions@[2].label@ == dimension_name(Dimension::Spacing) + decimal(
        c.panel_spacing as nat,
    )
    &&& forall|i: int|
        0 <= i < 3 ==> (#[trigger] deck.dimensions@[i]).down == -1 && deck.dimensions@[i].up == 1
    &&& deck.dot_grid_toggle@ == switch_text(c.show_dot_grid, "Dot Grid"@)
    &&& deck.dot_grid_toggle_sends == !c.show_dot_grid
    &&& deck.dot_sizes@.len() == dot_size_spec().len()
    &&& forall|i: int|
        0 <= i < deck.dot_sizes@.len() ==> (#[trigger] deck.dot_sizes@[i]).label@
            == dot_size_spec()[i].0 && deck.dot_sizes@[i].size == dot_size_spec()[i].1
            && deck.dot_sizes@[i].selected == (dot_size_spec()[i].1 == c.dot_size)
    &&& deck.dark_mode_toggle@ == switch_text(c.dark_mode, "Dark Mode"@)
    &&& deck.dark_mode_toggle_sends == !c.dark_mode
    &&& deck.monospace_toggle@ == switch_text(c.monospace_font, "Monospace Font"@)
    &&& deck.monospace_toggle_sends == !c.monospace_font
    &&& deck.order@.len() == c.panel_order.len()
    &&& forall|k: int|
        0 <= k < deck.order@.len() ==> (#[trigger] deck.order@[k]).index == k
            && deck.order@[k].label@ == decimal((k + 1) as nat) + ". "@ + module_name(
            c.panel_order[k],
        )
    &&& deck.colors@.len() == color_options_spec().len()
    &&& forall|i: int|
        0 <= i < deck.colors@.len() ==> (#[trigger] deck.colors@[i]).label@
            == color_options_spec()[i].0 && deck.colors@[i].color == color_options_spec()[i].1
}

/// The popup's settings page.
pub fn settings_deck<P: Copy>(applet: &BatteryApplet<P>) -> (deck: SettingsDeck)
    ensures
        is_settings_deck(*applet, deck),
{
    let config = applet.config();
    let n = config.panel_order.len();
    let mut order: Vec<OrderRow> = Vec::new();
    for k in 0..n
        invariant
            n == config.panel_order@.len(),
            order@.len() == k,
            forall|j: int|
                0 <= j < k ==> (#[trigger] order@[j]).index == j && order@[j].label@ == decimal(
                    (j + 1) as nat,
                ) + ". "@ + module_name(config.panel_order@[j]),
    {
        let label = order_row_label(k, config.panel_order[k]);
        order.push(OrderRow { label, index: k });
    }
    let mut dimensions: Vec<DimensionRow> = Vec::new();
    dimensions.push(dimension_row(Dimension::FontSize, config.panel_font_size as usize));
    dimensions.push(dimension_row(Dimension::BlockCount, config.panel_block_count));
    dimensions.push(dimension_row(Dimension::Spacing, config.panel_spacing as usize));
    SettingsDeck {
        battery_toggle: toggle_label(config.show_panel_battery, PanelModule::Battery),
        battery_toggle_sends: !config.show_panel_battery,
        brightness_toggle: toggle_label(config.show_panel_brightness, PanelModule::Brightness),
        brightness_toggle_sends: !config.show_panel_brightness,
        dimensions,
        order,
        dot_grid_toggle: switch_label(config.show_dot_grid, "Dot Grid"),
        dot_grid_toggle_sends: !config.show_dot_grid,
        dot_sizes: dot_size_choices(config.dot_size),
        dark_mode_toggle: switch_label(config.dark_mode, "Dark Mode"),
        dark_mode_toggle_sends: !config.dark_mode,
        monospace_toggle: switch_label(config.monospace_font, "Monospace Font"),
        monospace_toggle_sends: !config.monospace_font,
        colors: color_options(),
    }
}

/// The popup's frame: the header buttons and the page that shows.
pub struct PopupFrame {
    pub header: Vec<HeaderButton>,
    pub page: PopupTab,
}

/// The popup's frame: `Control Deck` and `Customization` buttons, which show
/// the main and the settings page, and the page of the active tab.
pub fn popup_frame<P: Copy>(applet: &BatteryApplet<P>) -> (frame: PopupFrame)
    ensures
        frame.page == applet@.active_tab,
        frame.header@.len() == header_spec().len(),
        forall|i: int|
            0 <= i < frame.header@.len() ==> (#[trigger] frame.header@[i]).label@ == header_spec()[i].0
                && frame.header@[i].sends == header_spec()[i].1,
{
    PopupFrame { header: header_buttons(), page: applet.active_tab() }
}

} // verus!
