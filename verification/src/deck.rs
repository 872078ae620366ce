use vstd::prelude::*;
use crate::text::{decimal, push_decimal, push_str_chars, str_chars};
use crate::types::{DotSize, PanelModule, PopupTab, Rgb8, cap_percent, capped_percent};

verus! {

/// A filled dot of the charge grid.
pub const FILLED_DOT: char = '\u{25CF}';

/// An empty dot of the charge grid.
pub const EMPTY_DOT: char = '\u{25CB}';

/// The popup's time line: the hours and minutes to full while charging, else to
/// empty; or a wait message where no positive time is known.
pub open spec fn time_text(charging: bool, hours_minutes: Option<(u32, u32)>) -> Seq<char> {
    match hours_minutes {
        Some((h, m)) => (if charging {
            "Time to full: "@
        } else {
            "Time remaining: "@
        }) + decimal(h as nat) + "h "@ + decimal(m as nat) + "m"@,
        None => "Calculating time..."@,
    }
}

/// The popup's time line.  `hours_minutes` is `(floor(secs / 3600), floor((secs % 3600) / 60))`
/// for a time of `secs > 0` seconds, and `None` where there is no such time.
pub fn time_label(charging: bool, hours_minutes: Option<(u32, u32)>) -> (text: Vec<char>)
    ensures
        text@ == time_text(charging, hours_minutes),
{
    let mut text: Vec<char> = Vec::new();
    match hours_minutes {
        Some((h, m)) => {
            if charging {
                push_str_chars(&mut text, "Time to full: ");
            } else {
                push_str_chars(&mut text, "Time remaining: ");
            }
            push_decimal(&mut text, h as u64);
            push_str_chars(&mut text, "h ");
            push_decimal(&mut text, m as u64);
            push_str_chars(&mut text, "m");
        },
        None => {
            push_str_chars(&mut text, "Calculating time...");
        },
    }
    assert(text@ =~= time_text(charging, hours_minutes));
    text
}

/// `Profile: ` and the power profile's name.
pub fn profile_label(profile: &String) -> (text: Vec<char>)
    ensures
        text@ == "Profile: "@ + profile@,
{
    let mut text: Vec<char> = Vec::new();
    push_str_chars(&mut text, "Profile: ");
    push_str_chars(&mut text, profile.as_str());
    assert(text@ =~= "Profile: "@ + profile@);
    text
}

/// `Brightness: ` and the brightness percentage, as it was read.
pub fn brightness_caption(pct: u32) -> (text: Vec<char>)
    ensures
        text@ == "Brightness: "@ + decimal(pct as nat) + "%"@,
{
    let mut text: Vec<char> = Vec::new();
    push_str_chars(&mut text, "Brightness: ");
    push_decimal(&mut text, pct as u64);
    push_str_chars(&mut text, "%");
    assert(text@ =~= "Brightness: "@ + decimal(pct as nat) + "%"@);
    text
}

/// `Battery State: ` and the battery percentage, capped at 100.
pub fn battery_state_caption(pct: u32) -> (text: Vec<char>)
    ensures
        text@ == "Battery State: "@ + decimal(capped_percent(pct) as nat) + "%"@,
{
    let mut text: Vec<char> = Vec::new();
    push_str_chars(&mut text, "Battery State: ");
    push_decimal(&mut text, cap_percent(pct) as u64);
    push_str_chars(&mut text, "%");
    assert(text@ =~= "Battery State: "@ + decimal(capped_percent(pct) as nat) + "%"@);
    text
}

/// One cell of the brightness slider.
#[derive(Clone, Copy, Debug, PartialEq, Eq, Structural)]
pub struct SliderSegment {
    /// Whether the cell is drawn full.
    pub filled: bool,
    /// The brightness that a click on the cell asks for.
    pub target_pct: u32,
}

/// The number of cells of the brightness slider.
pub const SLIDER_CELLS: usize = 10;

/// The slider's cells: cell `k` (from 0) is full where `k + 1 <= filled`, and asks for `10 * (k + 1)` %.
pub open spec fn slider_spec(filled: usize) -> Seq<SliderSegment> {
    Seq::new(
        SLIDER_CELLS as nat,
        |k: int| SliderSegment { filled: k + 1 <= filled, target_pct: (10 * (k + 1)) as u32 },
    )
}

/// The brightness slider; `filled` is `round(brightness / 100 * 10)`, computed by the host.
pub fn slider_segments(filled: usize) -> (cells: Vec<SliderSegment>)
    ensures
        cells@ == slider_spec(filled),
{
    let mut cells: Vec<SliderSegment> = Vec::new();
    let mut i: u32 = 1;
    while i <= 10
        invariant
            1 <= i <= 11,
            cells@.len() == i - 1,
            forall|k: int| 0 <= k < cells@.len() ==> cells@[k] == slider_spec(filled)[k],
        decreases 11 - i,
    {
        cells.push(SliderSegment { filled: (i as usize) <= filled, target_pct: i * 10 });
        i = i + 1;
    }
    assert(cells@ =~= slider_spec(filled));
    cells
}

/// The number of rows and of columns of the charge grid.
pub const GRID_SIDE: usize = 10;

/// The charge grid: row `r`, column `c` is filled where `10 * r + c < min(pct, 100)`.
pub open spec fn grid_spec(pct: u32) -> Seq<Seq<bool>> {
    Seq::new(
        GRID_SIDE as nat,
        |r: int| Seq::new(GRID_SIDE as nat, |c: int| 10 * r + c < capped_percent(pct)),
    )
}

/// The 10 by 10 charge grid of a battery percentage.
pub fn dot_grid(pct: u32) -> (rows: Vec<Vec<bool>>)
    ensures
        rows@.map_values(|row: Vec<bool>| row@) == grid_spec(pct),
{
    let filled = cap_percent(pct) as usize;
    let mut rows: Vec<Vec<bool>> = Vec::new();
    for r in 0..GRID_SIDE
        invariant
            filled == capped_percent(pct),
            rows@.len() == r,
            forall|k: int| 0 <= k < r ==> #[trigger] rows@[k]@ == grid_spec(pct)[k],
    {
        let mut row: Vec<bool> = Vec::new();
        for c in 0..GRID_SIDE
            invariant
                filled == capped_percent(pct),
                0 <= r < 10,
                row@.len() == c,
                forall|j: int| 0 <= j < c ==> #[trigger] row@[j] == (10 * r + j < filled),
        {
            row.push(r * 10 + c < filled);
        }
        assert(row@ =~= grid_spec(pct)[r as int]);
        rows.push(row);
    }
    assert(rows@.map_values(|row: Vec<bool>| row@) =~= grid_spec(pct));
    rows
}

/// The glyph of a grid cell.
pub fn dot_glyph(filled: bool) -> (c: char)
    ensures
        c == (if filled {
            FILLED_DOT
        } else {
            EMPTY_DOT
        }),
{
    if filled {
        FILLED_DOT
    } else {
        EMPTY_DOT
    }
}

/// The text size of the grid's dots.
pub open spec fn dot_font_size_spec(size: DotSize) -> u16 {
    match size {
        DotSize::Standard => 13,
        DotSize::Small => 9,
        DotSize::Tiny => 5,
    }
}

/// The text size of the grid's dots: 13, 9 or 5.
pub fn dot_font_size(size: DotSize) -> (sz: u16)
    ensures
        sz == dot_font_size_spec(size),
{
    match size {
        DotSize::Standard => 13,
        DotSize::Small => 9,
        DotSize::Tiny => 5,
    }
}

/// The name of a panel module.
pub open spec fn module_name(m: PanelModule) -> Seq<char> {
    match m {
        PanelModule::Battery => "Battery"@,
        PanelModule::Brightness => "Brightness"@,
    }
}

fn push_module_name(out: &mut Vec<char>, m: PanelModule)
    ensures
        final(out)@ == old(out)@ + module_name(m),
{
    match m {
        PanelModule::Battery => push_str_chars(out, "Battery"),
        PanelModule::Brightness => push_str_chars(out, "Brightness"),
    }
}

/// The label of a module's show/hide switch: `[x] Name` or `[ ] Name`.
pub open spec fn toggle_text(shown: bool, m: PanelModule) -> Seq<char> {
    (if shown {
        "[x] "@
    } else {
        "[ ] "@
    }) + module_name(m)
}

/// The label of a module's show/hide switch.
pub fn toggle_label(shown: bool, m: PanelModule) -> (text: Vec<char>)
    ensures
        text@ == toggle_text(shown, m),
{
    let mut text: Vec<char> = Vec::new();
    if shown {
        push_str_chars(&mut text, "[x] ");
    } else {
        push_str_chars(&mut text, "[ ] ");
    }
    push_module_name(&mut text, m);
    assert(text@ =~= toggle_text(shown, m));
    text
}

/// The line of the module at `idx` in the order list: its place from 1, a dot and its name.
pub fn order_row_label(idx: usize, m: PanelModule) -> (text: Vec<char>)
    requires
        idx < usize::MAX,
    ensures
        text@ == decimal((idx + 1) as nat) + ". "@ + module_name(m),
{
    let mut text: Vec<char> = Vec::new();
    push_decimal(&mut text, idx as u64 + 1);
    push_str_chars(&mut text, ". ");
    push_module_name(&mut text, m);
    assert(text@ =~= decimal((idx + 1) as nat) + ". "@ + module_name(m));
    text
}

/// The panel dimensions that the settings page steps.
#[derive(Clone, Copy, Debug, PartialEq, Eq, Structural)]
pub enum Dimension {
    FontSize,
    BlockCount,
    Spacing,
}

/// The caption of a dimension.
pub open spec fn dimension_name(d: Dimension) -> Seq<char> {
    match d {
        Dimension::FontSize => "Text Size: "@,
        Dimension::BlockCount => "ASCII Blocks: "@,
        Dimension::Spacing => "Spacing: "@,
    }
}

/// A dimension's caption and value, such as `Text Size: 13`.
pub fn dimension_label(d: Dimension, value: usize) -> (text: Vec<char>)
    ensures
        text@ == dimension_name(d) + decimal(value as nat),
{
    let mut text: Vec<char> = Vec::new();
    match d {
        Dimension::FontSize => push_str_chars(&mut text, "Text Size: "),
        Dimension::BlockCount => push_str_chars(&mut text, "ASCII Blocks: "),
        Dimension::Spacing => push_str_chars(&mut text, "Spacing: "),
    }
    push_decimal(&mut text, value as u64);
    assert(text@ =~= dimension_name(d) + decimal(value as nat));
    text
}

/// One choice of accent colour on the settings page.
pub struct ColorOption {
    pub label: Vec<char>,
    /// `None` for the charge-level colours.
    pub color: Option<Rgb8>,
}

/// The accent colour choices as mathematical values.
pub open spec fn color_options_spec() -> Seq<(Seq<char>, Option<Rgb8>)> {
    seq![
        ("Auto"@, None),
        ("Blue"@, Some(Rgb8 { r: 100, g: 170, b: 255 })),
        ("Green"@, Some(Rgb8 { r: 120, g: 220, b: 120 })),
        ("Purple"@, Some(Rgb8 { r: 190, g: 130, b: 255 })),
        ("Pink"@, Some(Rgb8 { r: 255, g: 130, b: 200 })),
        ("Orange"@, Some(Rgb8 { r: 255, g: 165, b: 60 })),
        ("White"@, Some(Rgb8 { r: 230, g: 230, b: 230 })),
        ("Rust"@, Some(Rgb8 { r: 170, g: 69, b: 36 })),
    ]
}

fn push_option(options: &mut Vec<ColorOption>, label: &str, color: Option<Rgb8>)
    ensures
        final(options)@.len() == old(options)@.len() + 1,
        forall|i: int| 0 <= i < old(options)@.len() ==> final(options)@[i] == old(options)@[i],
        final(options)@.last().label@ == label@,
        final(options)@.last().color == color,
{
    let mut text: Vec<char> = Vec::new();
    push_str_chars(&mut text, label);
    assert(text@ =~= label@);
    options.push(ColorOption { label: text, color });
}

/// The eight accent colour choices, in the order the settings page lists them.
pub fn color_options() -> (options: Vec<ColorOption>)
    ensures
        options@.len() == color_options_spec().len(),
        forall|i: int|
            0 <= i < options@.len() ==> (#[trigger] options@[i]).label@ == color_options_spec()[i].0
                && options@[i].color == color_options_spec()[i].1,
{
    let mut options: Vec<ColorOption> = Vec::new();
    push_option(&mut options, "Auto", None);
    push_option(&mut options, "Blue", Some(Rgb8 { r: 100, g: 170, b: 255 }));
    push_option(&mut options, "Green", Some(Rgb8 { r: 120, g: 220, b: 120 }));
    push_option(&mut options, "Purple", Some(Rgb8 { r: 190, g: 130, b: 255 }));
    push_option(&mut options, "Pink", Some(Rgb8 { r: 255, g: 130, b: 200 }));
    push_option(&mut options, "Orange", Some(Rgb8 { r: 255, g: 165, b: 60 }));
    push_option(&mut options, "White", Some(Rgb8 { r: 230, g: 230, b: 230 }));
    push_option(&mut options, "Rust", Some(Rgb8 { r: 170, g: 69, b: 36 }));
    options
}

/// The popup's width, in pixels.
pub const POPUP_WIDTH: u32 = 420;

/// The popup's height, in pixels.
pub const POPUP_HEIGHT: u32 = 480;

/// A button of the popup's header.
pub struct HeaderButton {
    pub label: Vec<char>,
    /// The page that a click shows.
    pub sends: PopupTab,
}

/// The header buttons as mathematical values, in order.
pub open spec fn header_spec() -> Seq<(Seq<char>, PopupTab)> {
    seq![("Control Deck"@, PopupTab::Main), ("Customization"@, PopupTab::Settings)]
}

/// The popup's header: one button per page.
pub fn header_buttons() -> (buttons: Vec<HeaderButton>)
    ensures
        buttons@.len() == header_spec().len(),
        forall|i: int|
            0 <= i < buttons@.len() ==> (#[trigger] buttons@[i]).label@ == header_spec()[i].0
                && buttons@[i].sends == header_spec()[i].1,
{
    let mut buttons: Vec<HeaderButton> = Vec::new();
    buttons.push(HeaderButton { label: str_chars("Control Deck"), sends: PopupTab::Main });
    buttons.push(HeaderButton { label: str_chars("Customization"), sends: PopupTab::Settings });
    buttons
}

/// A power profile button.
pub struct ProfileChoice {
    pub label: Vec<char>,
    /// The profile that a click asks for.
    pub sends: String,
}

/// The power profile buttons as mathematical values, in order.
pub open spec fn profile_choices_spec() -> Seq<(Seq<char>, Seq<char>)> {
    seq![
        ("Power Saver"@, "power-saver"@),
        ("Balanced"@, "balanced"@),
        ("Performance"@, "performance"@),
    ]
}

fn string_of(s: &str) -> (r: String)
    ensures
        r@ == s@,
{
    let mut r = String::new();
    r.append(s);
    r
}

/// The three power profile buttons.
pub fn profile_choices() -> (choices: Vec<ProfileChoice>)
    ensures
        choices@.len() == profile_choices_spec().len(),
        forall|i: int|
            0 <= i < choices@.len() ==> (#[trigger] choices@[i]).label@
                == profile_choices_spec()[i].0 && choices@[i].sends@ == profile_choices_spec()[i].1,
{
    let mut choices: Vec<ProfileChoice> = Vec::new();
    choices.push(ProfileChoice { label: str_chars("Power Saver"), sends: string_of("power-saver") });
    choices.push(ProfileChoice { label: str_chars("Balanced"), sends: string_of("balanced") });
    choices.push(ProfileChoice { label: str_chars("Performance"), sends: string_of("performance") });
    choices
}

/// A caption and a value, or `unknown` where there is none.
pub open spec fn optional_value_text(caption: Seq<char>, value: Option<u32>, unit: Seq<char>) -> Seq<char> {
    match value {
        Some(v) => caption + decimal(v as nat) + unit,
        None => caption + "unknown"@,
    }
}

/// `Capacity: {c} Wh`, or `Capacity: unknown`.
pub fn capacity_caption(capacity_wh: Option<u32>) -> (text: Vec<char>)
    ensures
        text@ == optional_value_text("Capacity: "@, capacity_wh, " Wh"@),
{
    let mut text: Vec<char> = Vec::new();
    push_str_chars(&mut text, "Capacity: ");
    match capacity_wh {
        Some(c) => {
            push_decimal(&mut text, c as u64);
            push_str_chars(&mut text, " Wh");
        },
        None => push_str_chars(&mut text, "unknown"),
    }
    assert(text@ =~= optional_value_text("Capacity: "@, capacity_wh, " Wh"@));
    text
}

/// `Health: {h}%`, or `Health: unknown`.
pub fn health_caption(health_percent: Option<u32>) -> (text: Vec<char>)
    ensures
        text@ == optional_value_text("Health: "@, health_percent, "%"@),
{
    let mut text: Vec<char> = Vec::new();
    push_str_chars(&mut text, "Health: ");
    match health_percent {
        Some(h) => {
            push_decimal(&mut text, h as u64);
            push_str_chars(&mut text, "%");
        },
        None => push_str_chars(&mut text, "unknown"),
    }
    assert(text@ =~= optional_value_text("Health: "@, health_percent, "%"@));
    text
}

/// The label of an on/off switch: `[x] Name` or `[ ] Name`.
pub open spec fn switch_text(on: bool, name: Seq<char>) -> Seq<char> {
    (if on {
        "[x] "@
    } else {
        "[ ] "@
    }) + name
}

/// The label of an on/off switch.
pub fn switch_label(on: bool, name: &str) -> (text: Vec<char>)
    ensures
        text@ == switch_text(on, name@),
{
    let mut text: Vec<char> = Vec::new();
    if on {
        push_str_chars(&mut text, "[x] ");
    } else {
        push_str_chars(&mut text, "[ ] ");
    }
    push_str_chars(&mut text, name);
    assert(text@ =~= switch_text(on, name@));
    text
}

/// A choice of dot size on the settings page.
pub struct DotSizeChoice {
    pub label: Vec<char>,
    /// The size that a click sets.
    pub size: DotSize,
    /// Whether this is the size in use.
    pub selected: bool,
}

/// The dot size choices as mathematical values, in order.
pub open spec fn dot_size_spec() -> Seq<(Seq<char>, DotSize)> {
    seq![("Standard"@, DotSize::Standard), ("Small"@, DotSize::Small), ("Tiny"@, DotSize::Tiny)]
}

/// The three dot sizes, the one in use marked.
pub fn dot_size_choices(current: DotSize) -> (choices: Vec<DotSizeChoice>)
    ensures
        choices@.len() == dot_size_spec().len(),
        forall|i: int|
            0 <= i < choices@.len() ==> (#[trigger] choices@[i]).label@ == dot_size_spec()[i].0
                && choices@[i].size == dot_size_spec()[i].1 && choices@[i].selected == (
            dot_size_spec()[i].1 == current),
{
    let mut choices: Vec<DotSizeChoice> = Vec::new();
    choices.push(
        DotSizeChoice {
            label: str_chars("Standard"),
            size: DotSize::Standard,
            selected: current == DotSize::Standard,
        },
    );
    choices.push(
        DotSizeChoice {
            label: str_chars("Small"),
            size: DotSize::Small,
            selected: current == DotSize::Small,
        },
    );
    choices.push(
        DotSizeChoice { label: str_chars("Tiny"), size: DotSize::Tiny, selected: current == DotSize::Tiny },
    );
    choices
}

/// The number of body rows of the vertical battery.
pub const BATTERY_ROWS: usize = 10;

/// The number of filled body rows: `ceil(min(pct, 100) / 10)`, so that any
/// charge shows at least one row.
pub open spec fn battery_level(pct: u32) -> int {
    (capped_percent(pct) + 9) / 10
}

/// Row `r` of the vertical battery, five characters wide: the cap, the
/// shoulders, ten body rows filled from the bottom, the base, and a line that
/// holds the charging mark while charging.
pub open spec fn battery_row(pct: u32, charging: bool, r: int) -> Seq<char> {
    if r == 0 {
        seq![' ', '\u{250C}', '\u{2500}', '\u{2510}', ' ']
    } else if r == 1 {
        seq!['\u{250C}', '\u{2518}', ' ', '\u{2514}', '\u{2510}']
    } else if r < 12 {
        let g = if 12 - r <= battery_level(pct) {
            crate::panel::FULL_BLOCK
        } else {
            ' '
        };
        seq!['\u{2502}', g, g, g, '\u{2502}']
    } else if r == 12 {
        seq!['\u{2514}', '\u{2500}', '\u{2500}', '\u{2500}', '\u{2518}']
    } else {
        seq![' ', ' ', if charging { CHARGING_GLYPH } else { ' ' }, ' ', ' ']
    }
}

/// The lightning mark under a charging battery.
pub const CHARGING_GLYPH: char = '\u{26A1}';

/// The vertical battery as rows of characters.
pub open spec fn vertical_battery_spec(pct: u32, charging: bool) -> Seq<Seq<char>> {
    Seq::new(14, |r: int| battery_row(pct, charging, r))
}

/// The vertical ASCII battery of the popup's main page.
pub fn vertical_battery(pct: u32, charging: bool) -> (rows: Vec<Vec<char>>)
    ensures
        rows@.map_values(|row: Vec<char>| row@) == vertical_battery_spec(pct, charging),
{
    let level = (cap_percent(pct) + 9) / 10;
    let mut rows: Vec<Vec<char>> = Vec::new();
    let mut r: usize = 0;
    while r < 14
        invariant
            r <= 14,
            level == battery_level(pct),
            rows@.len() == r,
            forall|k: int| 0 <= k < r ==> #[trigger] rows@[k]@ == battery_row(pct, charging, k),
        decreases 14 - r,
    {
        let mut row: Vec<char> = Vec::new();
        if r == 0 {
            row.push(' ');
            row.push('\u{250C}');
            row.push('\u{2500}');
            row.push('\u{2510}');
            row.push(' ');
        } else if r == 1 {
            row.push('\u{250C}');
            row.push('\u{2518}');
            row.push(' ');
            row.push('\u{2514}');
            row.push('\u{2510}');
        } else if r < 12 {
            let g = if 12 - (r as u32) <= level {
                crate::panel::FULL_BLOCK
            } else {
                ' '
            };
            row.push('\u{2502}');
            row.push(g);
            row.push(g);
            row.push(g);
            row.push('\u{2502}');
        } else if r == 12 {
            row.push('\u{2514}');
            row.push('\u{2500}');
            row.push('\u{2500}');
            row.push('\u{2500}');
            row.push('\u{2518}');
        } else {
            row.push(' ');
            row.push(' ');
            row.push(
                if charging {
                    CHARGING_GLYPH
                } else {
                    ' '
                },
            );
            row.push(' ');
            row.push(' ');
        }
        assert(row@ =~= battery_row(pct, charging, r as int));
        rows.push(row);
        r = r + 1;
    }
    assert(rows@.map_values(|row: Vec<char>| row@) =~= vertical_battery_spec(pct, charging));
    rows
}

} // verus!
