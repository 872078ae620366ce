use vstd::prelude::*;

verus! {

/// The two pages of the popup.
#[derive(Clone, Copy, Debug, PartialEq, Eq, Structural)]
pub enum PopupTab {
    Main,
    Settings,
}

impl Default for PopupTab {
    fn default() -> (tab: Self)
        ensures
            tab == PopupTab::Main,
    {
        PopupTab::Main
    }
}

/// Size of the glyphs in the dot grid.
#[derive(Clone, Copy, Debug, PartialEq, Eq, Structural)]
pub enum DotSize {
    Standard,
    Small,
    Tiny,
}

impl Default for DotSize {
    fn default() -> (size: Self)
        ensures
            size == DotSize::Standard,
    {
        DotSize::Standard
    }
}

/// The modules that the panel can show.
#[derive(Clone, Copy, Debug, PartialEq, Eq, Structural)]
pub enum PanelModule {
    Battery,
    Brightness,
}

/// An opaque colour given as its three 8-bit channels.
#[derive(Clone, Copy, Debug, PartialEq, Eq, Structural)]
pub struct Rgb8 {
    pub r: u8,
    pub g: u8,
    pub b: u8,
}

/// The charge-level colour of a percentage.
pub open spec fn tier_color_spec(pct: u32) -> Rgb8 {
    if pct <= 20 {
        Rgb8 { r: 255, g: 60, b: 60 }
    } else if pct <= 50 {
        Rgb8 { r: 255, g: 165, b: 0 }
    } else if pct <= 70 {
        Rgb8 { r: 255, g: 220, b: 0 }
    } else {
        Rgb8 { r: 180, g: 220, b: 255 }
    }
}

/// Red up to 20 %, orange up to 50 %, yellow up to 70 %, light blue above.
pub fn get_tier_color(pct: u32) -> (c: Rgb8)
    ensures
        c == tier_color_spec(pct),
{
    if pct <= 20 {
        Rgb8 { r: 255, g: 60, b: 60 }
    } else if pct <= 50 {
        Rgb8 { r: 255, g: 165, b: 0 }
    } else if pct <= 70 {
        Rgb8 { r: 255, g: 220, b: 0 }
    } else {
        Rgb8 { r: 180, g: 220, b: 255 }
    }
}

/// A percentage capped at 100.
pub open spec fn capped_percent(pct: u32) -> u32 {
    if pct <= 100 {
        pct
    } else {
        100
    }
}

/// `pct.min(100)`.
pub fn cap_percent(pct: u32) -> (r: u32)
    ensures
        r == capped_percent(pct),
{
    if pct <= 100 {
        pct
    } else {
        100
    }
}

/// One reading of the battery.
///
/// `time_remaining` is the time to full or to empty, in seconds, as the bit
/// pattern of an `f32`; the library stores it and hands it back unread.
/// `capacity_wh` is the energy of a full charge in watt-hours, and
/// `health_percent` that energy against the design capacity, both rounded.
#[derive(Clone, Copy, Debug, PartialEq, Eq, Structural)]
pub struct BatteryState {
    pub percentage: u32,
    pub is_charging: bool,
    pub time_remaining: Option<u32>,
    pub capacity_wh: Option<u32>,
    pub health_percent: Option<u32>,
}

} // verus!
