use vstd::prelude::*;
use crate::config::{AppletConfig, ConfigView};
use crate::text::{
    decimal, pad_left, push_padded_decimal, push_repeat, push_str_chars, repeat_char,
    saturating_sub,
};
use crate::types::{PanelModule, Rgb8, cap_percent, capped_percent, get_tier_color, tier_color_spec};

verus! {

/// A filled bar cell.
pub const FULL_BLOCK: char = '\u{2588}';

/// An empty bar cell.
pub const LIGHT_SHADE: char = '\u{2591}';

/// The mark of a charging battery.
pub const CHARGING_MARK: char = '\u{26A1}';

/// The mark of the brightness module.
pub const SUN_MARK: char = '\u{263C}';

/// The colour that a text is drawn in.
#[derive(Clone, Copy, Debug, PartialEq, Eq)]
pub enum TextColor {
    /// The user's accent colour (bit patterns of four `f32` channels).
    Accent([u32; 4]),
    /// A charge-level colour.
    Tier(Rgb8),
    /// The desktop theme's accent colour.
    ThemeAccent,
}

/// The accent colour where the user chose one, else the charge-level colour of `pct`.
pub open spec fn accent_or_tier(accent: Option<[u32; 4]>, pct: u32) -> TextColor {
    match accent {
        Some(a) => TextColor::Accent(a),
        None => TextColor::Tier(tier_color_spec(pct)),
    }
}

/// `accent` as a colour, or the charge-level colour of `pct`.
pub fn accent_or_tier_color(accent: Option<[u32; 4]>, pct: u32) -> (c: TextColor)
    ensures
        c == accent_or_tier(accent, pct),
{
    match accent {
        Some(a) => TextColor::Accent(a),
        None => TextColor::Tier(get_tier_color(pct)),
    }
}

/// `[` then `filled` full cells, then empty cells up to `blocks`, then `]`.
pub open spec fn bar(filled: nat, blocks: nat) -> Seq<char> {
    seq!['['] + repeat_char(FULL_BLOCK, filled) + repeat_char(LIGHT_SHADE, saturating_sub(blocks, filled))
        + seq![']']
}

/// The battery module's text, as `"{:>3}% {mark}[{bar}]"` with the percentage capped at 100.
pub open spec fn battery_text(pct: u32, charging: bool, filled: nat, blocks: nat) -> Seq<char> {
    pad_left(decimal(capped_percent(pct) as nat), 3) + seq![
        '%',
        ' ',
        if charging {
            CHARGING_MARK
        } else {
            ' '
        },
    ] + bar(filled, blocks)
}

/// The brightness module's text, as `"{sun}{:>3}%[{bar}]"` with the percentage capped at 100.
pub open spec fn brightness_text(pct: u32, filled: nat, blocks: nat) -> Seq<char> {
    seq![SUN_MARK] + pad_left(decimal(capped_percent(pct) as nat), 3) + seq!['%'] + bar(filled, blocks)
}

fn push_bar(out: &mut Vec<char>, filled: usize, blocks: usize)
    ensures
        final(out)@ == old(out)@ + bar(filled as nat, blocks as nat),
{
    let ghost start = out@;
    out.push('[');
    push_repeat(out, FULL_BLOCK, filled);
    let empty = if blocks >= filled {
        blocks - filled
    } else {
        0
    };
    push_repeat(out, LIGHT_SHADE, empty);
    out.push(']');
    assert(out@ =~= start + bar(filled as nat, blocks as nat));
}

/// The battery module's text; `filled` is the number of full cells out of `blocks`.
pub fn battery_label(pct: u32, charging: bool, filled: usize, blocks: usize) -> (text: Vec<char>)
    ensures
        text@ == battery_text(pct, charging, filled as nat, blocks as nat),
{
    let mut text: Vec<char> = Vec::new();
    push_padded_decimal(&mut text, cap_percent(pct) as u64, 3);
    text.push('%');
    text.push(' ');
    text.push(
        if charging {
            CHARGING_MARK
        } else {
            ' '
        },
    );
    push_bar(&mut text, filled, blocks);
    assert(text@ =~= battery_text(pct, charging, filled as nat, blocks as nat));
    text
}

/// The brightness module's text; `filled` is the number of full cells out of `blocks`.
pub fn brightness_label(pct: u32, filled: usize, blocks: usize) -> (text: Vec<char>)
    ensures
        text@ == brightness_text(pct, filled as nat, blocks as nat),
{
    let mut text: Vec<char> = Vec::new();
    text.push(SUN_MARK);
    push_padded_decimal(&mut text, cap_percent(pct) as u64, 3);
    text.push('%');
    push_bar(&mut text, filled, blocks);
    assert(text@ =~= brightness_text(pct, filled as nat, blocks as nat));
    text
}

/// One text of the panel.
pub struct PanelItem {
    pub text: Vec<char>,
    pub color: TextColor,
}

/// A panel text as mathematical values.
pub struct PanelItemView {
    pub text: Seq<char>,
    pub color: TextColor,
}

impl View for PanelItem {
    type V = PanelItemView;

    open spec fn view(&self) -> PanelItemView {
        PanelItemView { text: self.text@, color: self.color }
    }
}

/// What the panel reads at one moment: the settings, the readings, and the
/// number of full bar cells for the battery and for the brightness.
pub struct PanelInput {
    pub battery_percentage: u32,
    pub is_charging: bool,
    pub brightness_percent: u32,
    pub battery_filled: usize,
    pub brightness_filled: usize,
}

/// The text that module `m` shows, if the settings show it.
pub open spec fn module_item(m: PanelModule, cfg: ConfigView, input: PanelInput) -> Option<PanelItemView> {
    match m {
        PanelModule::Battery => if cfg.show_panel_battery {
            Some(
                PanelItemView {
                    text: battery_text(
                        input.battery_percentage,
                        input.is_charging,
                        input.battery_filled as nat,
                        cfg.panel_block_count as nat,
                    ),
                    color: accent_or_tier(cfg.accent_color_rgba, capped_percent(input.battery_percentage)),
                },
            )
        } else {
            None
        },
        PanelModule::Brightness => if cfg.show_panel_brightness {
            Some(
                PanelItemView {
                    text: brightness_text(
                        input.brightness_percent,
                        input.brightness_filled as nat,
                        cfg.panel_block_count as nat,
                    ),
                    color: accent_or_tier(cfg.accent_color_rgba, capped_percent(input.brightness_percent)),
                },
            )
        } else {
            None
        },
    }
}

/// The texts of the shown modules of `order`, in that order.
pub open spec fn shown_items(order: Seq<PanelModule>, cfg: ConfigView, input: PanelInput) -> Seq<PanelItemView>
    decreases order.len(),
{
    if order.len() == 0 {
        Seq::empty()
    } else {
        let before = shown_items(order.drop_last(), cfg, input);
        match module_item(order.last(), cfg, input) {
            Some(item) => before.push(item),
            None => before,
        }
    }
}

/// The text shown where no module is: `ASCII`, in the accent colour or the theme's.
pub open spec fn placeholder_item(cfg: ConfigView) -> PanelItemView {
    PanelItemView {
        text: seq!['A', 'S', 'C', 'I', 'I'],
        color: match cfg.accent_color_rgba {
            Some(a) => TextColor::Accent(a),
            None => TextColor::ThemeAccent,
        },
    }
}

/// What the panel shows: the shown modules in the chosen order, or the placeholder.
pub open spec fn panel_content(cfg: ConfigView, input: PanelInput) -> Seq<PanelItemView> {
    let items = shown_items(cfg.panel_order, cfg, input);
    if items.len() == 0 {
        seq![placeholder_item(cfg)]
    } else {
        items
    }
}

fn item_for(m: PanelModule, config: &AppletConfig, input: &PanelInput) -> (item: Option<PanelItem>)
    ensures
        match item {
            Some(it) => module_item(m, config@, *input) == Some(it@),
            None => module_item(m, config@, *input) is None,
        },
{
    match m {
        PanelModule::Battery => if config.show_panel_battery {
            Some(
                PanelItem {
                    text: battery_label(
                        input.battery_percentage,
                        input.is_charging,
                        input.battery_filled,
                        config.panel_block_count,
                    ),
                    color: accent_or_tier_color(
                        config.accent_color_rgba,
                        cap_percent(input.battery_percentage),
                    ),
                },
            )
        } else {
            None
        },
        PanelModule::Brightness => if config.show_panel_brightness {
            Some(
                PanelItem {
                    text: brightness_label(
                        input.brightness_percent,
                        input.brightness_filled,
                        config.panel_block_count,
                    ),
                    color: accent_or_tier_color(
                        config.accent_color_rgba,
                        cap_percent(input.brightness_percent),
                    ),
                },
            )
        } else {
            None
        },
    }
}

/// The texts that the panel shows, as `panel_content` says.
///
/// `battery_filled` and `brightness_filled` are the rounded number of full cells,
/// `round(min(pct, 100) / 100 * blocks)`, which the host computes in floating point.
pub fn panel_items(config: &AppletConfig, input: &PanelInput) -> (items: Vec<PanelItem>)
    ensures
        items@.map_values(|it: PanelItem| it@) == panel_content(config@, *input),
{
    let mut items: Vec<PanelItem> = Vec::new();
    let n = config.panel_order.len();
    for i in 0..n
        invariant
            n == config.panel_order@.len(),
            items@.map_values(|it: PanelItem| it@) == shown_items(
                config.panel_order@.take(i as int),
                config@,
                *input,
            ),
    {
        let m = config.panel_order[i];
        assert(config.panel_order@.take(i + 1).drop_last() == config.panel_order@.take(i as int));
        let ghost before = items@;
        match item_for(m, config, input) {
            Some(it) => {
                items.push(it);
                assert(items@.map_values(|it: PanelItem| it@) =~= before.map_values(
                    |it: PanelItem| it@,
                ).push(it@));
            },
            None => {},
        }
    }
    assert(config.panel_order@.take(n as int) == config.panel_order@);
    if items.len() == 0 {
        let mut text: Vec<char> = Vec::new();
        push_str_chars(&mut text, "ASCII");
        proof {
            reveal_strlit("ASCII");
            assert(text@ =~= seq!['A', 'S', 'C', 'I', 'I']);
        }
        let color = match config.accent_color_rgba {
            Some(a) => TextColor::Accent(a),
            None => TextColor::ThemeAccent,
        };
        items.push(PanelItem { text, color });
        assert(items@.len() == 1);
        assert(items@[0]@ == placeholder_item(config@));
        assert(items@.map_values(|it: PanelItem| it@) =~= seq![placeholder_item(config@)]);
    }
    items
}

} // verus!
