use vstd::prelude::*;
use crate::applet::{ActionView, AppletView, Message, accepts, is_settings_message, step};
use crate::config::{ConfigView, can_move_left, swap_seq};
use crate::deck::grid_spec;
use crate::panel::{
    CHARGING_MARK, FULL_BLOCK, LIGHT_SHADE, SUN_MARK, PanelInput, bar, battery_text, brightness_text,
    panel_content,
};
use crate::host::{all_digits, digits_value, is_digit, is_white_space, parse_u32, trim_end, trim_start, trimmed};
use crate::text::{decimal, digit_char, pad_left, repeat_char};
use crate::types::{BatteryState, DotSize, PopupTab, Rgb8, capped_percent, tier_color_spec};
use crate::host::{ChargeState, reading_spec, session_choice_ok};
use crate::config::can_move_right;

verus! {

/// Exchanging two places of a sequence keeps the same items.
pub proof fn lemma_swap_keeps_items<A>(s: Seq<A>, i: int, j: int)
    requires
        0 <= i < s.len(),
        0 <= j < s.len(),
    ensures
        swap_seq(s, i, j).to_multiset() =~= s.to_multiset(),
        swap_seq(s, i, j).len() == s.len(),
{
    broadcast use vstd::seq_lib::to_multiset_update;
    broadcast use vstd::multiset::group_multiset_axioms;
    broadcast use vstd::seq_lib::group_to_multiset_ensures;

    let u = s.update(i, s[j]);
    assert(u.to_multiset() == s.to_multiset().insert(s[j]).remove(s[i]));
    assert(u.update(j, s[i]).to_multiset() == u.to_multiset().insert(s[i]).remove(u[j]));
    if i == j {
        assert(swap_seq(s, i, j) =~= s);
    } else {
        assert(u[j] == s[j]);
        assert(s.to_multiset().count(s[i]) > 0) by {
            assert(s.contains(s[i]));
        }
        assert(s.to_multiset().insert(s[j]).remove(s[i]).insert(s[i]).remove(s[j]) =~= s.to_multiset());
    }
}

/// A tick changes nothing and asks for fresh readings.
pub proof fn lemma_tick_only_fetches<P>(s: AppletView<P>)
    ensures
        step(s, Message::Tick) == (s, ActionView::<P>::FetchAll),
{
}

/// A brightness that the applet asks the screen for is never above 100 %, and
/// is the brightness that the applet then shows.
pub proof fn lemma_brightness_request_capped<P>(s: AppletView<P>, m: Message<P>)
    ensures
        step(s, m).1 matches ActionView::ApplyBrightness(t) ==> t <= 100 && step(
            s,
            m,
        ).0.brightness_percent == t,
{
}

/// While the slider is dragged, a brightness reading does not move it.
pub proof fn lemma_drag_holds_brightness<P>(s: AppletView<P>, pct: u32)
    requires
        s.is_dragging_brightness,
    ensures
        step(s, Message::BrightnessFetched(Some(pct))) == (s, ActionView::<P>::Nothing),
{
}

/// After a step of a panel dimension, the text size is within 6 ..= 24, the
/// number of bar cells within 1 ..= 30 and the spacing within 0 ..= 32.
pub proof fn lemma_dimension_steps_stay_in_range<P>(s: AppletView<P>, m: Message<P>)
    ensures
        m is AdjustFontSize ==> 6 <= step(s, m).0.config.panel_font_size <= 24,
        m is AdjustBlockCount ==> 1 <= step(s, m).0.config.panel_block_count <= 30,
        m is AdjustSpacing ==> step(s, m).0.config.panel_spacing <= 32,
{
}

/// Every message leaves the panel order a rearrangement of the same modules.
pub proof fn lemma_order_keeps_modules<P>(s: AppletView<P>, m: Message<P>)
    ensures
        step(s, m).0.config.panel_order.to_multiset() =~= s.config.panel_order.to_multiset(),
        step(s, m).0.config.panel_order.len() == s.config.panel_order.len(),
{
    let order = s.config.panel_order;
    match m {
        Message::MoveModuleLeft(idx) => {
            if can_move_left(order, idx) {
                lemma_swap_keeps_items(order, idx as int, idx - 1);
            }
        },
        Message::MoveModuleRight(idx) => {
            if idx + 1 < order.len() {
                lemma_swap_keeps_items(order, idx as int, idx + 1);
            }
        },
        _ => {},
    }
}

/// Moving a module left and then moving it back right restores the order and
/// every other part of the state.
pub proof fn lemma_move_left_then_right_restores<P>(s: AppletView<P>, idx: usize)
    requires
        can_move_left(s.config.panel_order, idx),
    ensures
        accepts(step(s, Message::MoveModuleLeft(idx)).0, Message::<P>::MoveModuleRight((idx - 1) as usize)),
        step(step(s, Message::MoveModuleLeft(idx)).0, Message::MoveModuleRight((idx - 1) as usize)).0
            == s,
{
    let order = s.config.panel_order;
    let moved = step(s, Message::MoveModuleLeft(idx)).0;
    assert(moved.config.panel_order == swap_seq(order, idx as int, idx - 1));
    assert(swap_seq(swap_seq(order, idx as int, idx - 1), idx - 1, idx as int) =~= order);
    assert(step(moved, Message::MoveModuleRight((idx - 1) as usize)).0.config =~= s.config);
}

/// Opening the popup with a click and closing it with the next click closes the
/// popup that was opened, and gives back the state of before.
pub proof fn lemma_toggle_menu_twice<P>(s: AppletView<P>, first: P, second: P)
    requires
        s.popup is None,
    ensures
        step(s, Message::ToggleMenu(first)).1 == ActionView::<P>::OpenPopup(first),
        step(s, Message::ToggleMenu(first)).0.popup == Some(first),
        step(step(s, Message::ToggleMenu(first)).0, Message::ToggleMenu(second)) == (
            s,
            ActionView::<P>::DestroyPopup(first),
        ),
{
    assert(step(step(s, Message::ToggleMenu(first)).0, Message::ToggleMenu(second)).0 =~= s);
}

/// Settings persist: a message that changes the settings asks for them to be
/// saved, and a save is asked for only after a settings message, which changes
/// nothing but the settings.
pub proof fn lemma_settings_changes_are_saved<P>(s: AppletView<P>, m: Message<P>)
    ensures
        step(s, m).0.config != s.config ==> step(s, m).1 == ActionView::<P>::SaveConfig,
        step(s, m).1 == ActionView::<P>::SaveConfig ==> is_settings_message(m) && step(s, m).0 == (
        AppletView { config: step(s, m).0.config, ..s }),
        !is_settings_message(m) ==> step(s, m).0.config == s.config,
{
}

/// A number below 1000 takes one to three digits.
pub proof fn lemma_decimal_len(n: nat)
    requires
        n < 1000,
    ensures
        1 <= decimal(n).len() <= 3,
        n < 10 <==> decimal(n).len() == 1,
{
    reveal_with_fuel(decimal, 3);
    if n >= 10 {
        assert(decimal((n / 10) as nat).len() <= 2) by {
            reveal_with_fuel(decimal, 2);
        }
    }
}

/// A bar has `blocks` cells between its brackets whenever `filled <= blocks`:
/// the first `filled` full, the others empty.
pub proof fn lemma_bar_cells(filled: nat, blocks: nat)
    requires
        filled <= blocks,
    ensures
        bar(filled, blocks).len() == blocks + 2,
        bar(filled, blocks)[0] == '[',
        bar(filled, blocks)[blocks + 1int] == ']',
        forall|k: int|
            0 <= k < blocks ==> #[trigger] bar(filled, blocks)[k + 1] == (if k < filled {
                FULL_BLOCK
            } else {
                LIGHT_SHADE
            }),
{
}

/// The panel texts keep a fixed width for a given number of bar cells: the
/// battery text is `blocks + 8` characters wide and the brightness text
/// `blocks + 7`, whatever the percentages.
pub proof fn lemma_panel_text_width(
    battery_pct: u32,
    charging: bool,
    brightness_pct: u32,
    filled: nat,
    blocks: nat,
)
    requires
        filled <= blocks,
    ensures
        battery_text(battery_pct, charging, filled, blocks).len() == blocks + 8,
        brightness_text(brightness_pct, filled, blocks).len() == blocks + 7,
        battery_text(battery_pct, charging, filled, blocks)[5] == (if charging {
            CHARGING_MARK
        } else {
            ' '
        }),
{
    lemma_decimal_len(capped_percent(battery_pct) as nat);
    lemma_decimal_len(capped_percent(brightness_pct) as nat);
    assert(pad_left(decimal(capped_percent(battery_pct) as nat), 3).len() == 3);
    assert(pad_left(decimal(capped_percent(brightness_pct) as nat), 3).len() == 3);
}

/// The panel always shows at least one text.
pub proof fn lemma_panel_never_empty(cfg: ConfigView, input: PanelInput)
    ensures
        panel_content(cfg, input).len() >= 1,
{
}

/// Read row by row, the charge grid fills exactly its first `min(pct, 100)` dots.
pub proof fn lemma_grid_fills_first_dots(pct: u32)
    ensures
        grid_spec(pct).len() == 10,
        forall|i: int|
            0 <= i < 100 ==> #[trigger] grid_spec(pct)[i / 10][i % 10] == (i < capped_percent(pct)),
{
    assert forall|i: int| 0 <= i < 100 implies #[trigger] grid_spec(pct)[i / 10][i % 10] == (i
        < capped_percent(pct)) by {
        assert(10 * (i / 10) + i % 10 == i);
        assert(0 <= i / 10 < 10);
    }
}

/// The decimal notation of a number is made of digits and reads back as that number.
pub proof fn lemma_decimal_reads_back(n: nat)
    ensures
        decimal(n).len() >= 1,
        all_digits(decimal(n)),
        digits_value(decimal(n)) == n,
    decreases n,
{
    if n < 10 {
        assert(decimal(n) == seq![digit_char(n as int)]);
        assert(decimal(n).drop_last() =~= Seq::<char>::empty());
        assert(is_digit(digit_char(n as int)) && digit_char(n as int) as u32 - '0' as u32 == n);
        assert(digits_value(Seq::<char>::empty()) == 0);
        let d = decimal(n);
        assert(d.last() == digit_char(n as int));
        assert(digits_value(d) == digits_value(d.drop_last()) * 10 + (d.last() as u32 - '0' as u32) as nat);
    } else {
        lemma_decimal_reads_back(n / 10);
        let d = decimal(n);
        assert(d.drop_last() == decimal(n / 10));
        let r = (n % 10) as int;
        assert(is_digit(digit_char(r)) && digit_char(r) as u32 - '0' as u32 == r);
        assert(d.last() == digit_char(r));
        assert(n == (n / 10) * 10 + r);
        assert(digits_value(d) == digits_value(d.drop_last()) * 10 + (d.last() as u32 - '0' as u32) as nat);
        assert forall|i: int| 0 <= i < d.len() implies is_digit(#[trigger] d[i]) by {
            if i < d.len() - 1 {
                assert(d[i] == decimal(n / 10)[i]);
            }
        }
    }
}

/// A number as the kernel writes it into a sysfs file, its decimal notation and
/// a line feed, reads back as that number.
pub proof fn lemma_sysfs_number_round_trip(n: u32)
    ensures
        parse_u32(trimmed(decimal(n as nat).push('\n'))) == Some(n),
{
    let d = decimal(n as nat);
    lemma_decimal_reads_back(n as nat);
    let s = d.push('\n');
    assert(is_digit(d[0]));
    assert(!is_white_space(d[0]));
    assert(s[0] == d[0]);
    assert(trim_start(s) == s);
    assert(is_white_space(s.last()));
    assert(s.drop_last() == d);
    assert(!is_white_space(d.last())) by {
        assert(is_digit(d[d.len() - 1]));
    }
    assert(trim_end(s) == trim_end(d));
    assert(trim_end(d) == d);
    assert(d[0] != '+');
}

/// The number of times `c` occurs in `s`.
pub open spec fn count_char(s: Seq<char>, c: char) -> nat
    decreases s.len(),
{
    if s.len() == 0 {
        0
    } else {
        count_char(s.drop_last(), c) + if s.last() == c {
            1nat
        } else {
            0nat
        }
    }
}

proof fn lemma_count_concat(a: Seq<char>, b: Seq<char>, c: char)
    ensures
        count_char(a + b, c) == count_char(a, c) + count_char(b, c),
    decreases b.len(),
{
    if b.len() == 0 {
        assert(a + b =~= a);
    } else {
        assert((a + b).drop_last() =~= a + b.drop_last());
        lemma_count_concat(a, b.drop_last(), c);
    }
}

proof fn lemma_count_repeat(x: char, n: nat, c: char)
    ensures
        count_char(repeat_char(x, n), c) == (if x == c {
            n
        } else {
            0
        }),
    decreases n,
{
    if n > 0 {
        assert(repeat_char(x, n).drop_last() =~= repeat_char(x, (n - 1) as nat));
        lemma_count_repeat(x, (n - 1) as nat, c);
    }
}

proof fn lemma_count_absent(s: Seq<char>, c: char)
    requires
        forall|i: int| 0 <= i < s.len() ==> s[i] != c,
    ensures
        count_char(s, c) == 0,
    decreases s.len(),
{
    if s.len() > 0 {
        lemma_count_absent(s.drop_last(), c);
    }
}

proof fn lemma_number_has_no_cells(n: nat, width: nat)
    ensures
        count_char(pad_left(decimal(n), width), FULL_BLOCK) == 0,
        count_char(pad_left(decimal(n), width), LIGHT_SHADE) == 0,
{
    lemma_decimal_reads_back(n);
    let d = decimal(n);
    assert forall|i: int| 0 <= i < d.len() implies d[i] != FULL_BLOCK && d[i] != LIGHT_SHADE by {
        assert(is_digit(d[i]));
    }
    lemma_count_absent(d, FULL_BLOCK);
    lemma_count_absent(d, LIGHT_SHADE);
    if d.len() < width {
        let k = (width - d.len()) as nat;
        lemma_count_concat(repeat_char(' ', k), d, FULL_BLOCK);
        lemma_count_concat(repeat_char(' ', k), d, LIGHT_SHADE);
        lemma_count_repeat(' ', k, FULL_BLOCK);
        lemma_count_repeat(' ', k, LIGHT_SHADE);
    }
}

/// A bar holds `filled` full cells and `blocks - filled` empty ones, so
/// exactly `blocks` cells, whenever `filled <= blocks`.
pub proof fn lemma_bar_glyph_counts(filled: nat, blocks: nat)
    requires
        filled <= blocks,
    ensures
        count_char(bar(filled, blocks), FULL_BLOCK) == filled,
        count_char(bar(filled, blocks), LIGHT_SHADE) == blocks - filled,
        count_char(bar(filled, blocks), FULL_BLOCK) + count_char(bar(filled, blocks), LIGHT_SHADE)
            == blocks,
{
    let full = repeat_char(FULL_BLOCK, filled);
    let empty = repeat_char(LIGHT_SHADE, (blocks - filled) as nat);
    assert(bar(filled, blocks) == seq!['['] + full + empty + seq![']']);
    lemma_count_concat(seq!['['] + full + empty, seq![']'], FULL_BLOCK);
    lemma_count_concat(seq!['['] + full, empty, FULL_BLOCK);
    lemma_count_concat(seq!['['], full, FULL_BLOCK);
    lemma_count_concat(seq!['['] + full + empty, seq![']'], LIGHT_SHADE);
    lemma_count_concat(seq!['['] + full, empty, LIGHT_SHADE);
    lemma_count_concat(seq!['['], full, LIGHT_SHADE);
    lemma_count_repeat(FULL_BLOCK, filled, FULL_BLOCK);
    lemma_count_repeat(FULL_BLOCK, filled, LIGHT_SHADE);
    lemma_count_repeat(LIGHT_SHADE, (blocks - filled) as nat, FULL_BLOCK);
    lemma_count_repeat(LIGHT_SHADE, (blocks - filled) as nat, LIGHT_SHADE);
    lemma_count_absent(seq!['['], FULL_BLOCK);
    lemma_count_absent(seq!['['], LIGHT_SHADE);
    lemma_count_absent(seq![']'], FULL_BLOCK);
    lemma_count_absent(seq![']'], LIGHT_SHADE);
}

/// The panel texts show at most 100 %, and hold exactly `filled` full cells and
/// `blocks` cells in all, whenever `filled <= blocks`: so a higher percentage
/// with at least as many full cells shows no smaller number and no fewer full cells.
pub proof fn lemma_panel_text_cells(pct: u32, charging: bool, filled: nat, blocks: nat)
    requires
        filled <= blocks,
    ensures
        capped_percent(pct) <= 100,
        battery_text(pct, charging, filled, blocks).take(3) == pad_left(
            decimal(capped_percent(pct) as nat),
            3,
        ),
        count_char(battery_text(pct, charging, filled, blocks), FULL_BLOCK) == filled,
        count_char(battery_text(pct, charging, filled, blocks), FULL_BLOCK) + count_char(
            battery_text(pct, charging, filled, blocks),
            LIGHT_SHADE,
        ) == blocks,
        count_char(brightness_text(pct, filled, blocks), FULL_BLOCK) == filled,
        count_char(brightness_text(pct, filled, blocks), FULL_BLOCK) + count_char(
            brightness_text(pct, filled, blocks),
            LIGHT_SHADE,
        ) == blocks,
{
    let num = pad_left(decimal(capped_percent(pct) as nat), 3);
    lemma_decimal_len(capped_percent(pct) as nat);
    assert(num.len() == 3);
    lemma_number_has_no_cells(capped_percent(pct) as nat, 3);
    lemma_bar_glyph_counts(filled, blocks);
    let mark = seq!['%', ' ', if charging { CHARGING_MARK } else { ' ' }];
    assert(battery_text(pct, charging, filled, blocks) == num + mark + bar(filled, blocks));
    assert((num + mark + bar(filled, blocks)).take(3) =~= num);
    lemma_count_concat(num + mark, bar(filled, blocks), FULL_BLOCK);
    lemma_count_concat(num, mark, FULL_BLOCK);
    lemma_count_concat(num + mark, bar(filled, blocks), LIGHT_SHADE);
    lemma_count_concat(num, mark, LIGHT_SHADE);
    lemma_count_absent(mark, FULL_BLOCK);
    lemma_count_absent(mark, LIGHT_SHADE);
    let sun = seq![SUN_MARK];
    let pc = seq!['%'];
    assert(brightness_text(pct, filled, blocks) == sun + num + pc + bar(filled, blocks));
    lemma_count_concat(sun + num + pc, bar(filled, blocks), FULL_BLOCK);
    lemma_count_concat(sun + num, pc, FULL_BLOCK);
    lemma_count_concat(sun, num, FULL_BLOCK);
    lemma_count_concat(sun + num + pc, bar(filled, blocks), LIGHT_SHADE);
    lemma_count_concat(sun + num, pc, LIGHT_SHADE);
    lemma_count_concat(sun, num, LIGHT_SHADE);
    lemma_count_absent(sun, FULL_BLOCK);
    lemma_count_absent(sun, LIGHT_SHADE);
    lemma_count_absent(pc, FULL_BLOCK);
    lemma_count_absent(pc, LIGHT_SHADE);
}

/// A higher battery percentage, drawn with at least as many full cells, shows
/// a number no smaller and no fewer full cells.
pub proof fn lemma_battery_text_monotone(
    low: u32,
    high: u32,
    charging: bool,
    low_filled: nat,
    high_filled: nat,
    blocks: nat,
)
    requires
        low <= high,
        low_filled <= high_filled <= blocks,
    ensures
        capped_percent(low) <= capped_percent(high),
        count_char(battery_text(low, charging, low_filled, blocks), FULL_BLOCK) <= count_char(
            battery_text(high, charging, high_filled, blocks),
            FULL_BLOCK,
        ),
{
    lemma_panel_text_cells(low, charging, low_filled, blocks);
    lemma_panel_text_cells(high, charging, high_filled, blocks);
}

/// A battery reading is kept as given, whatever it says of charging: the
/// percentage, the charging flag, the remaining time, the capacity and the
/// health; nothing else changes and nothing is asked of the host.  A missing
/// reading changes nothing.
pub proof fn lemma_battery_reading_is_stored<P>(s: AppletView<P>, st: BatteryState)
    ensures
        step(s, Message::BatteryFetched(Some(st))).0.battery_percentage == st.percentage,
        step(s, Message::BatteryFetched(Some(st))).0.is_charging == st.is_charging,
        step(s, Message::BatteryFetched(Some(st))).0.time_remaining == st.time_remaining,
        step(s, Message::BatteryFetched(Some(st))).0.capacity_wh == st.capacity_wh,
        step(s, Message::BatteryFetched(Some(st))).0.health_percent == st.health_percent,
        step(s, Message::BatteryFetched(Some(st))).0.config == s.config,
        step(s, Message::BatteryFetched(Some(st))).0.brightness_percent == s.brightness_percent,
        step(s, Message::BatteryFetched(Some(st))).0.active_profile == s.active_profile,
        step(s, Message::BatteryFetched(Some(st))).0.popup == s.popup,
        step(s, Message::BatteryFetched(Some(st))).0.active_tab == s.active_tab,
        step(s, Message::BatteryFetched(Some(st))).1 == ActionView::<P>::Nothing,
        step(s, Message::BatteryFetched(None)) == (s, ActionView::<P>::Nothing),
{
}

/// A profile reading or choice becomes the shown profile, and a choice is sent
/// to the system; a tab click shows that tab.
pub proof fn lemma_profile_and_tab<P>(s: AppletView<P>, p: String, tab: PopupTab)
    ensures
        step(s, Message::ProfileFetched(Some(p))).0.active_profile == p@,
        step(s, Message::ProfileFetched(Some(p))).1 == ActionView::<P>::Nothing,
        step(s, Message::SetProfile(p)).0.active_profile == p@,
        step(s, Message::SetProfile(p)).1 == ActionView::<P>::ApplyProfile(p@),
        step(s, Message::SetProfile(p)).0.config == s.config,
        step(s, Message::SwitchTab(tab)).0.active_tab == tab,
        step(s, Message::SwitchTab(tab)).0.config == s.config,
{
}

/// Each switch message sets its own setting to the value it carries, whatever
/// the setting was, leaves the other switches alone, and asks for a save; so
/// does a dot size or an accent colour.
pub proof fn lemma_switches_set_their_setting<P>(
    s: AppletView<P>,
    v: bool,
    size: DotSize,
    accent: Option<[u32; 4]>,
)
    ensures
        step(s, Message::TogglePanelBattery(v)).0.config.show_panel_battery == v,
        step(s, Message::TogglePanelBattery(v)).0.config.show_panel_brightness
            == s.config.show_panel_brightness,
        step(s, Message::TogglePanelBattery(v)).1 == ActionView::<P>::SaveConfig,
        step(s, Message::TogglePanelBrightness(v)).0.config.show_panel_brightness == v,
        step(s, Message::TogglePanelBrightness(v)).0.config.show_panel_battery
            == s.config.show_panel_battery,
        step(s, Message::TogglePanelBrightness(v)).1 == ActionView::<P>::SaveConfig,
        step(s, Message::ToggleDotGrid(v)).0.config.show_dot_grid == v,
        step(s, Message::ToggleDotGrid(v)).0.config.show_panel_battery == s.config.show_panel_battery,
        step(s, Message::ToggleDotGrid(v)).1 == ActionView::<P>::SaveConfig,
        step(s, Message::ToggleDarkMode(v)).0.config.dark_mode == v,
        step(s, Message::ToggleDarkMode(v)).0.config.monospace_font == s.config.monospace_font,
        step(s, Message::ToggleDarkMode(v)).1 == ActionView::<P>::SaveConfig,
        step(s, Message::ToggleMonospaceFont(v)).0.config.monospace_font == v,
        step(s, Message::ToggleMonospaceFont(v)).0.config.dark_mode == s.config.dark_mode,
        step(s, Message::ToggleMonospaceFont(v)).1 == ActionView::<P>::SaveConfig,
        step(s, Message::SetDotSize(size)).0.config.dot_size == size,
        step(s, Message::SetDotSize(size)).0.config.show_dot_grid == s.config.show_dot_grid,
        step(s, Message::SetDotSize(size)).1 == ActionView::<P>::SaveConfig,
        step(s, Message::SetAccentColor(accent)).0.config.accent_color_rgba == accent,
        step(s, Message::SetAccentColor(accent)).1 == ActionView::<P>::SaveConfig,
{
}

/// A size step that lands inside the allowed range moves the size by exactly
/// that step (for sizes that read as an `i16`).
pub proof fn lemma_steps_inside_range_are_exact<P>(s: AppletView<P>, d: i16)
    ensures
        s.config.panel_font_size <= 32767 && 6 <= s.config.panel_font_size + d <= 24 ==> step(
            s,
            Message::AdjustFontSize(d),
        ).0.config.panel_font_size == s.config.panel_font_size + d,
        s.config.panel_block_count <= 32767 && 1 <= s.config.panel_block_count + d <= 30 ==> step(
            s,
            Message::AdjustBlockCount(d),
        ).0.config.panel_block_count == s.config.panel_block_count + d,
        s.config.panel_spacing <= 32767 && 0 <= s.config.panel_spacing + d <= 32 ==> step(
            s,
            Message::AdjustSpacing(d),
        ).0.config.panel_spacing == s.config.panel_spacing + d,
{
}

/// A press on the slider sets the brightness to the pressed value, or to 100
/// above that, and starts a drag; a drag over the slider moves it only during a
/// drag; the end of a drag changes only the drag; a reading outside a drag
/// becomes the brightness.
pub proof fn lemma_brightness_slider<P>(s: AppletView<P>, pct: u32)
    ensures
        step(s, Message::BrightnessPress(pct)).0.brightness_percent == (if pct <= 100 {
            pct
        } else {
            100
        }),
        step(s, Message::BrightnessPress(pct)).0.is_dragging_brightness,
        step(s, Message::BrightnessPress(pct)).0.config == s.config,
        s.is_dragging_brightness ==> step(s, Message::BrightnessDragOver(pct)).0.brightness_percent
            == (if pct <= 100 {
            pct
        } else {
            100
        }),
        !s.is_dragging_brightness ==> step(s, Message::BrightnessDragOver(pct)) == (
            s,
            ActionView::<P>::Nothing,
        ),
        !step(s, Message::BrightnessDragEnd).0.is_dragging_brightness,
        step(s, Message::BrightnessDragEnd).0.brightness_percent == s.brightness_percent,
        !s.is_dragging_brightness ==> step(
            s,
            Message::BrightnessFetched(Some(pct)),
        ).0.brightness_percent == pct,
{
}

/// A possible move exchanges the module with its neighbour and keeps every
/// other place; an impossible one changes nothing and saves nothing.
pub proof fn lemma_moves_swap_neighbours<P>(s: AppletView<P>, idx: usize)
    ensures
        can_move_left(s.config.panel_order, idx) ==> ({
            let o = s.config.panel_order;
            let n = step(s, Message::MoveModuleLeft(idx)).0.config.panel_order;
            &&& n.len() == o.len()
            &&& n[idx - 1] == o[idx as int]
            &&& n[idx as int] == o[idx - 1]
            &&& forall|j: int| 0 <= j < o.len() && j != idx && j != idx - 1 ==> n[j] == o[j]
        }),
        !can_move_left(s.config.panel_order, idx) ==> step(s, Message::MoveModuleLeft(idx)) == (
            s,
            ActionView::<P>::Nothing,
        ),
        can_move_right(s.config.panel_order, idx) ==> ({
            let o = s.config.panel_order;
            let n = step(s, Message::MoveModuleRight(idx)).0.config.panel_order;
            &&& n.len() == o.len()
            &&& n[idx + 1] == o[idx as int]
            &&& n[idx as int] == o[idx + 1]
            &&& forall|j: int| 0 <= j < o.len() && j != idx && j != idx + 1 ==> n[j] == o[j]
        }),
        !can_move_right(s.config.panel_order, idx) ==> step(s, Message::MoveModuleRight(idx)) == (
            s,
            ActionView::<P>::Nothing,
        ),
{
}

/// A size step that would leave the allowed range stops at its edge.
pub proof fn lemma_steps_stop_at_the_edges<P>(s: AppletView<P>, d: i16)
    ensures
        s.config.panel_font_size <= 32767 && s.config.panel_font_size + d > 24 ==> step(
            s,
            Message::AdjustFontSize(d),
        ).0.config.panel_font_size == 24,
        s.config.panel_font_size <= 32767 && s.config.panel_font_size + d < 6 ==> step(
            s,
            Message::AdjustFontSize(d),
        ).0.config.panel_font_size == 6,
        s.config.panel_block_count <= 32767 && s.config.panel_block_count + d > 30 ==> step(
            s,
            Message::AdjustBlockCount(d),
        ).0.config.panel_block_count == 30,
        s.config.panel_block_count <= 32767 && s.config.panel_block_count + d < 1 ==> step(
            s,
            Message::AdjustBlockCount(d),
        ).0.config.panel_block_count == 1,
        s.config.panel_spacing <= 32767 && s.config.panel_spacing + d > 32 ==> step(
            s,
            Message::AdjustSpacing(d),
        ).0.config.panel_spacing == 32,
        s.config.panel_spacing <= 32767 && s.config.panel_spacing + d < 0 ==> step(
            s,
            Message::AdjustSpacing(d),
        ).0.config.panel_spacing == 0,
{
}

/// Charge-level colours: red up to 20 %, orange up to 50 %, yellow up to 70 %,
/// light blue above; a lower tier is never given to a higher charge.
pub proof fn lemma_tier_colors(pct: u32, higher: u32)
    ensures
        pct <= 20 ==> tier_color_spec(pct) == (Rgb8 { r: 255, g: 60, b: 60 }),
        20 < pct <= 50 ==> tier_color_spec(pct) == (Rgb8 { r: 255, g: 165, b: 0 }),
        50 < pct <= 70 ==> tier_color_spec(pct) == (Rgb8 { r: 255, g: 220, b: 0 }),
        70 < pct ==> tier_color_spec(pct) == (Rgb8 { r: 180, g: 220, b: 255 }),
        pct <= higher && tier_color_spec(pct) == (Rgb8 { r: 180, g: 220, b: 255 }) ==> tier_color_spec(
            higher,
        ) == (Rgb8 { r: 180, g: 220, b: 255 }),
{
}

/// A charging or full battery counts as charging and any other as not; the
/// remaining time is the time to full while charging, the time to empty while
/// discharging, and none in any other state; the percentage, capacity and
/// health are kept.
pub proof fn lemma_battery_reading_rules(
    pct: u32,
    state: ChargeState,
    ttf: Option<u32>,
    tte: Option<u32>,
    cap: Option<u32>,
    health: Option<u32>,
)
    ensures
        reading_spec(pct, state, ttf, tte, cap, health).is_charging <==> (state
            == ChargeState::Charging || state == ChargeState::Full),
        state == ChargeState::Charging ==> reading_spec(pct, state, ttf, tte, cap, health).time_remaining
            == ttf,
        state == ChargeState::Discharging ==> reading_spec(
            pct,
            state,
            ttf,
            tte,
            cap,
            health,
        ).time_remaining == tte,
        state != ChargeState::Charging && state != ChargeState::Discharging ==> reading_spec(
            pct,
            state,
            ttf,
            tte,
            cap,
            health,
        ).time_remaining is None,
        reading_spec(pct, state, ttf, tte, cap, health).percentage == pct,
        reading_spec(pct, state, ttf, tte, cap, health).capacity_wh == cap,
        reading_spec(pct, state, ttf, tte, cap, health).health_percent == health,
{
}

/// Where the wanted session is listed, the choice is a session with that
/// identifier and no earlier one has it; where it is not (or none is wanted),
/// the choice is the first session; a choice exists whenever a session does.
pub proof fn lemma_session_choice(
    ids: Seq<Seq<char>>,
    wanted: Option<Seq<char>>,
    c: Option<usize>,
    w: Seq<char>,
)
    requires
        session_choice_ok(ids, wanted, c),
    ensures
        c is Some <==> ids.len() > 0,
        wanted == Some(w) && ids.contains(w) ==> (c is Some && ids[c->0 as int] == w && forall|j: int|
            0 <= j < c->0 ==> ids[j] != w),
        wanted == Some(w) && !ids.contains(w) && ids.len() > 0 ==> c == Some(0usize),
        wanted is None && ids.len() > 0 ==> c == Some(0usize),
{
    if wanted == Some(w) {
        if let Some(i) = c {
            if ids.contains(w) && !(ids[i as int] == w) {
                let k = choose|k: int| 0 <= k < ids.len() && ids[k] == w;
                assert(ids[k] == w);
            }
            if !ids.contains(w) && ids[i as int] == w {
                assert(ids.contains(w));
            }
        }
    }
}

/// The battery text holds its percentage, capped at 100, right-aligned in its
/// first three places, then `%`; the brightness text holds its mark, then its
/// capped percentage in three places, then `%`.
pub proof fn lemma_panel_text_layout(pct: u32, charging: bool, filled: nat, blocks: nat)
    ensures
        battery_text(pct, charging, filled, blocks)[3] == '%',
        battery_text(pct, charging, filled, blocks).subrange(0, 3) == pad_left(
            decimal(capped_percent(pct) as nat),
            3,
        ),
        brightness_text(pct, filled, blocks)[0] == SUN_MARK,
        brightness_text(pct, filled, blocks)[4] == '%',
        brightness_text(pct, filled, blocks).subrange(1, 4) == pad_left(
            decimal(capped_percent(pct) as nat),
            3,
        ),
{
    lemma_decimal_len(capped_percent(pct) as nat);
    let num = pad_left(decimal(capped_percent(pct) as nat), 3);
    assert(num.len() == 3);
    assert(battery_text(pct, charging, filled, blocks).subrange(0, 3) =~= num);
    assert(brightness_text(pct, filled, blocks).subrange(1, 4) =~= num);
}

/// A number read from sysfs may carry one `+` before its digits; a `-` makes
/// it unreadable, and so does a value beyond `u32::MAX`.
pub proof fn lemma_sysfs_number_signs(n: nat)
    ensures
        n <= u32::MAX ==> parse_u32(seq!['+'] + decimal(n)) == Some(n as u32),
        n <= u32::MAX ==> parse_u32(decimal(n)) == Some(n as u32),
        parse_u32(seq!['-'] + decimal(n)) is None,
        n > u32::MAX ==> parse_u32(decimal(n)) is None,
{
    lemma_decimal_reads_back(n);
    let d = decimal(n);
    assert((seq!['+'] + d).drop_first() =~= d);
    assert(is_digit(d[0]));
    assert(d[0] != '+');
    let minus = seq!['-'] + d;
    assert(!is_digit(minus[0]));
    assert(!all_digits(minus));
}

} // verus!
