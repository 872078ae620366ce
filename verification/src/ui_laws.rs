use vstd::prelude::*;
use crate::applet::{ActionView, BatteryApplet, Message, step};
use crate::config::ConfigView;
use crate::deck::{CHARGING_GLYPH, Dimension, vertical_battery_spec};
use crate::panel::FULL_BLOCK;
use crate::popup::{MainDeck, SettingsDeck, is_main_deck, is_settings_deck, step_message_spec};
use crate::types::DotSize;
use crate::laws::{lemma_decimal_len, lemma_decimal_reads_back};
use crate::host::is_digit;
use crate::panel::{
    PanelInput, PanelItemView, SUN_MARK, TextColor, battery_text, brightness_text, panel_content,
    shown_items,
};
use crate::text::{decimal, pad_left};
use crate::types::{PanelModule, capped_percent, tier_color_spec};

verus! {

broadcast use vstd::seq_lib::group_seq_properties;

/// The colour of a module's text: the accent where one is chosen, else the
/// charge-level colour of the capped percentage.
pub open spec fn module_color(accent: Option<[u32; 4]>, pct: u32) -> TextColor {
    match accent {
        Some(a) => TextColor::Accent(a),
        None => TextColor::Tier(tier_color_spec(capped_percent(pct))),
    }
}

/// The battery module's text and colour for these settings and readings.
pub open spec fn battery_item(cfg: ConfigView, input: PanelInput) -> PanelItemView {
    PanelItemView {
        text: battery_text(
            input.battery_percentage,
            input.is_charging,
            input.battery_filled as nat,
            cfg.panel_block_count as nat,
        ),
        color: module_color(cfg.accent_color_rgba, input.battery_percentage),
    }
}

/// The brightness module's text and colour for these settings and readings.
pub open spec fn brightness_item(cfg: ConfigView, input: PanelInput) -> PanelItemView {
    PanelItemView {
        text: brightness_text(
            input.brightness_percent,
            input.brightness_filled as nat,
            cfg.panel_block_count as nat,
        ),
        color: module_color(cfg.accent_color_rgba, input.brightness_percent),
    }
}

/// The `ASCII` text, in the accent colour or the theme's.
pub open spec fn ascii_item(cfg: ConfigView) -> PanelItemView {
    PanelItemView {
        text: seq!['A', 'S', 'C', 'I', 'I'],
        color: match cfg.accent_color_rgba {
            Some(a) => TextColor::Accent(a),
            None => TextColor::ThemeAccent,
        },
    }
}

proof fn lemma_first_chars(cfg: ConfigView, input: PanelInput)
    ensures
        battery_item(cfg, input).text.len() > 0,
        battery_item(cfg, input).text[0] != SUN_MARK,
        battery_item(cfg, input).text[0] != 'A',
        brightness_item(cfg, input).text.len() > 0,
        brightness_item(cfg, input).text[0] == SUN_MARK,
{
    let c = capped_percent(input.battery_percentage) as nat;
    lemma_decimal_len(c);
    lemma_decimal_reads_back(c);
    let d = decimal(c);
    assert(is_digit(d[0]));
    let num = pad_left(d, 3);
    assert(num.len() == 3);
    assert(num[0] == ' ' || num[0] == d[0]);
    assert(battery_item(cfg, input).text[0] == num[0]);
}

proof fn lemma_shown_items_members(order: Seq<PanelModule>, cfg: ConfigView, input: PanelInput)
    ensures
        forall|i: int|
            0 <= i < shown_items(order, cfg, input).len() ==> (#[trigger] shown_items(
                order,
                cfg,
                input,
            )[i] == battery_item(cfg, input) && cfg.show_panel_battery) || (shown_items(
                order,
                cfg,
                input,
            )[i] == brightness_item(cfg, input) && cfg.show_panel_brightness),
        shown_items(order, cfg, input).contains(battery_item(cfg, input)) <==> (
        cfg.show_panel_battery && order.contains(PanelModule::Battery)),
        shown_items(order, cfg, input).contains(brightness_item(cfg, input)) <==> (
        cfg.show_panel_brightness && order.contains(PanelModule::Brightness)),
    decreases order.len(),
{
    lemma_first_chars(cfg, input);
    assert(battery_item(cfg, input) != brightness_item(cfg, input));
    if order.len() > 0 {
        let before = order.drop_last();
        lemma_shown_items_members(before, cfg, input);
        assert(order == before.push(order.last()));
        assert(order.contains(PanelModule::Battery) <==> (before.contains(PanelModule::Battery)
            || order.last() == PanelModule::Battery));
        assert(order.contains(PanelModule::Brightness) <==> (before.contains(
            PanelModule::Brightness,
        ) || order.last() == PanelModule::Brightness));
    } else {
        assert(!order.contains(PanelModule::Battery));
        assert(!order.contains(PanelModule::Brightness));
    }
}

/// Each module is on the panel exactly when its own switch is on and the order
/// lists it, whatever the other switch says; every text on the panel is the
/// text of a shown module in its colour, or else the `ASCII` text, which shows
/// exactly when no module is shown.
pub proof fn lemma_panel_modules_follow_their_switches(cfg: ConfigView, input: PanelInput)
    ensures
        panel_content(cfg, input).contains(battery_item(cfg, input)) <==> (cfg.show_panel_battery
            && cfg.panel_order.contains(PanelModule::Battery)),
        panel_content(cfg, input).contains(brightness_item(cfg, input)) <==> (
        cfg.show_panel_brightness && cfg.panel_order.contains(PanelModule::Brightness)),
        (panel_content(cfg, input) == seq![ascii_item(cfg)]) <==> (!(cfg.show_panel_battery
            && cfg.panel_order.contains(PanelModule::Battery)) && !(cfg.show_panel_brightness
            && cfg.panel_order.contains(PanelModule::Brightness))),
        panel_content(cfg, input) != seq![ascii_item(cfg)] ==> forall|i: int|
            0 <= i < panel_content(cfg, input).len() ==> (#[trigger] panel_content(cfg, input)[i]
                == battery_item(cfg, input) && cfg.show_panel_battery) || (panel_content(
                cfg,
                input,
            )[i] == brightness_item(cfg, input) && cfg.show_panel_brightness),
{
    let shown = shown_items(cfg.panel_order, cfg, input);
    lemma_shown_items_members(cfg.panel_order, cfg, input);
    lemma_first_chars(cfg, input);
    let a = ascii_item(cfg);
    assert(a.text[0] == 'A');
    assert(a != battery_item(cfg, input));
    assert(a != brightness_item(cfg, input));
    if shown.len() == 0 {
        assert(!shown.contains(battery_item(cfg, input)));
        assert(!shown.contains(brightness_item(cfg, input)));
        assert(panel_content(cfg, input) == seq![a]);
        assert(!seq![a].contains(battery_item(cfg, input)));
        assert(!seq![a].contains(brightness_item(cfg, input)));
    } else {
        assert(panel_content(cfg, input) == shown);
        let first = shown[0];
        assert(first == battery_item(cfg, input) || first == brightness_item(cfg, input));
        assert(shown.contains(first));
        assert(shown != seq![a]) by {
            assert(shown[0] != a);
        }
    }
}

/// With a known remaining time, the main page's time line reads
/// `Time to full: {h}h {m}m` while charging and `Time remaining: {h}h {m}m`
/// otherwise, so it begins with `Time to full: ` exactly while charging.
pub proof fn lemma_time_line_follows_charging<P>(
    applet: BatteryApplet<P>,
    h: u32,
    m: u32,
    slider_filled: usize,
    deck: MainDeck,
)
    requires
        is_main_deck(applet, Some((h, m)), slider_filled, deck),
    ensures
        applet@.is_charging ==> deck.time@ == "Time to full: "@ + decimal(h as nat) + "h "@ + decimal(
            m as nat,
        ) + "m"@,
        !applet@.is_charging ==> deck.time@ == "Time remaining: "@ + decimal(h as nat) + "h "@
            + decimal(m as nat) + "m"@,
        deck.time@.len() >= 14 && (deck.time@.take(14) == "Time to full: "@ <==> applet@.is_charging),
{
    reveal_strlit("Time to full: ");
    reveal_strlit("Time remaining: ");
    let full = "Time to full: "@;
    let rem = "Time remaining: "@;
    let rest = decimal(h as nat) + "h "@ + decimal(m as nat) + "m"@;
    if applet@.is_charging {
        assert(deck.time@ == full + rest);
        assert((full + rest).take(14) =~= full);
    } else {
        assert(deck.time@ == rem + rest);
        assert((rem + rest).take(14)[5] == 'r');
        assert(full[5] == 't');
    }
}

/// Without a known remaining time, the main page says it is still calculating.
pub proof fn lemma_time_line_waits<P>(applet: BatteryApplet<P>, slider_filled: usize, deck: MainDeck)
    requires
        is_main_deck(applet, None, slider_filled, deck),
    ensures
        deck.time@ == "Calculating time..."@,
{
}

/// The main page's profile buttons are Power Saver, Balanced and Performance,
/// and each asks the system for its own profile, which becomes the shown one;
/// a click on slider cell `k` sets the brightness to `10 * (k + 1)` %; the dot
/// grid is there exactly when the settings show it.
pub proof fn lemma_main_page_controls<P>(
    applet: BatteryApplet<P>,
    hours_minutes: Option<(u32, u32)>,
    slider_filled: usize,
    deck: MainDeck,
)
    requires
        is_main_deck(applet, hours_minutes, slider_filled, deck),
    ensures
        deck.profiles@.len() == 3,
        deck.profiles@[0].label@ == "Power Saver"@ && deck.profiles@[0].sends@ == "power-saver"@,
        deck.profiles@[1].label@ == "Balanced"@ && deck.profiles@[1].sends@ == "balanced"@,
        deck.profiles@[2].label@ == "Performance"@ && deck.profiles@[2].sends@ == "performance"@,
        forall|i: int|
            0 <= i < 3 ==> step(applet@, Message::SetProfile(#[trigger] deck.profiles@[i].sends)).1
                == ActionView::<P>::ApplyProfile(deck.profiles@[i].sends@),
        deck.slider@.len() == 10,
        forall|k: int|
            0 <= k < 10 ==> step(
                applet@,
                Message::BrightnessPress(#[trigger] deck.slider@[k].target_pct),
            ).0.brightness_percent == 10 * (k + 1),
        forall|k: int| 0 <= k < 10 ==> ((#[trigger] deck.slider@[k]).filled <==> k < slider_filled),
        deck.grid is Some <==> applet@.config.show_dot_grid,
        applet@.capacity_wh matches Some(c) ==> deck.capacity@ == "Capacity: "@ + decimal(c as nat)
            + " Wh"@,
        applet@.capacity_wh is None ==> deck.capacity@ == "Capacity: unknown"@,
        applet@.health_percent matches Some(h) ==> deck.health@ == "Health: "@ + decimal(h as nat)
            + "%"@,
        applet@.health_percent is None ==> deck.health@ == "Health: unknown"@,
{
    assert(deck.profiles@[0].sends@ == "power-saver"@);
    reveal_strlit("Capacity: ");
    reveal_strlit("Health: ");
    reveal_strlit("unknown");
    reveal_strlit("Capacity: unknown");
    reveal_strlit("Health: unknown");
    assert("Capacity: "@ + "unknown"@ =~= "Capacity: unknown"@);
    assert("Health: "@ + "unknown"@ =~= "Health: unknown"@);
    assert forall|k: int| 0 <= k < 10 implies step(
        applet@,
        Message::BrightnessPress(#[trigger] deck.slider@[k].target_pct),
    ).0.brightness_percent == 10 * (k + 1) by {
        assert(deck.slider@[k].target_pct == 10 * (k + 1));
    }
}

/// Every switch of the settings page shows `[x]` where its setting is on and
/// `[ ]` where it is off, and sends the opposite of its setting, so a click
/// flips that setting; the `-` and `+` of each size row send a step of -1 and
/// +1 of that size; each dot size choice sets its own size.
pub proof fn lemma_settings_controls<P>(applet: BatteryApplet<P>, deck: SettingsDeck)
    requires
        is_settings_deck(applet, deck),
    ensures
        step(applet@, Message::TogglePanelBattery(deck.battery_toggle_sends)).0.config.show_panel_battery
            == !applet@.config.show_panel_battery,
        step(
            applet@,
            Message::TogglePanelBrightness(deck.brightness_toggle_sends),
        ).0.config.show_panel_brightness == !applet@.config.show_panel_brightness,
        step(applet@, Message::ToggleDotGrid(deck.dot_grid_toggle_sends)).0.config.show_dot_grid
            == !applet@.config.show_dot_grid,
        step(applet@, Message::ToggleDarkMode(deck.dark_mode_toggle_sends)).0.config.dark_mode
            == !applet@.config.dark_mode,
        step(
            applet@,
            Message::ToggleMonospaceFont(deck.monospace_toggle_sends),
        ).0.config.monospace_font == !applet@.config.monospace_font,
        deck.battery_toggle@[1] == (if applet@.config.show_panel_battery {
            'x'
        } else {
            ' '
        }),
        deck.brightness_toggle@[1] == (if applet@.config.show_panel_brightness {
            'x'
        } else {
            ' '
        }),
        deck.dot_grid_toggle@[1] == (if applet@.config.show_dot_grid {
            'x'
        } else {
            ' '
        }),
        deck.dark_mode_toggle@[1] == (if applet@.config.dark_mode {
            'x'
        } else {
            ' '
        }),
        deck.monospace_toggle@[1] == (if applet@.config.monospace_font {
            'x'
        } else {
            ' '
        }),
        deck.dimensions@.len() == 3,
        step_message_spec::<P>(deck.dimensions@[0].dimension, deck.dimensions@[0].down)
            == Message::<P>::AdjustFontSize(-1i16),
        step_message_spec::<P>(deck.dimensions@[0].dimension, deck.dimensions@[0].up)
            == Message::<P>::AdjustFontSize(1),
        step_message_spec::<P>(deck.dimensions@[1].dimension, deck.dimensions@[1].down)
            == Message::<P>::AdjustBlockCount(-1i16),
        step_message_spec::<P>(deck.dimensions@[1].dimension, deck.dimensions@[1].up)
            == Message::<P>::AdjustBlockCount(1),
        step_message_spec::<P>(deck.dimensions@[2].dimension, deck.dimensions@[2].down)
            == Message::<P>::AdjustSpacing(-1i16),
        step_message_spec::<P>(deck.dimensions@[2].dimension, deck.dimensions@[2].up)
            == Message::<P>::AdjustSpacing(1),
        deck.order@.len() == applet@.config.panel_order.len(),
        forall|k: int| 0 <= k < deck.order@.len() ==> (#[trigger] deck.order@[k]).index == k,
        deck.dot_sizes@.len() == 3,
        deck.dot_sizes@[0].size == DotSize::Standard,
        deck.dot_sizes@[1].size == DotSize::Small,
        deck.dot_sizes@[2].size == DotSize::Tiny,
        forall|i: int|
            0 <= i < 3 ==> step(applet@, Message::SetDotSize(#[trigger] deck.dot_sizes@[i].size)).0.config.dot_size
                == deck.dot_sizes@[i].size && (deck.dot_sizes@[i].selected <==> deck.dot_sizes@[i].size
                == applet@.config.dot_size),
{
    reveal_strlit("[x] ");
    reveal_strlit("[ ] ");
    assert(deck.dimensions@[0].down == -1);
    assert(deck.dimensions@[1].down == -1);
    assert(deck.dimensions@[2].down == -1);
    assert(deck.dimensions@[0].up == 1);
    assert(deck.dimensions@[1].up == 1);
    assert(deck.dimensions@[2].up == 1);
    assert(deck.dot_sizes@[0].size == DotSize::Standard);
}

/// The vertical battery has fourteen rows of five characters; body row `r`
/// (rows 2 to 11, from the top) is filled exactly when the capped charge is
/// above `10 * (11 - r)` %, so the filled rows are the lowest ones and any
/// charge fills at least one; the last row holds the lightning mark exactly
/// while charging.
pub proof fn lemma_vertical_battery_fill(pct: u32, charging: bool)
    ensures
        vertical_battery_spec(pct, charging).len() == 14,
        forall|r: int|
            0 <= r < 14 ==> (#[trigger] vertical_battery_spec(pct, charging)[r]).len() == 5,
        forall|r: int|
            2 <= r < 12 ==> ((#[trigger] vertical_battery_spec(pct, charging)[r])[2] == FULL_BLOCK
                <==> 10 * (11 - r) < capped_percent(pct)),
        (vertical_battery_spec(pct, charging)[13][2] == CHARGING_GLYPH) <==> charging,
{
    assert forall|r: int| 2 <= r < 12 implies ((#[trigger] vertical_battery_spec(
        pct,
        charging,
    )[r])[2] == FULL_BLOCK <==> 10 * (11 - r) < capped_percent(pct)) by {
        let c = capped_percent(pct) as int;
        assert(12 - r <= (c + 9) / 10 <==> 10 * (11 - r) < c);
    }
}

} // verus!
