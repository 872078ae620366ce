use vstd::prelude::*;
use crate::types::{DotSize, PanelModule};

verus! {

/// The user's settings, kept between launches.
///
/// `dark_mode` asks for the dark theme, `monospace_font` for a fixed-width font
/// in the panel.  `accent_color_rgba` holds the four channels of the accent colour as the bit
/// patterns of `f32` values: the library only stores and hands back the colour.
pub struct AppletConfig {
    pub show_panel_battery: bool,
    pub show_panel_brightness: bool,
    pub panel_order: Vec<PanelModule>,
    pub show_dot_grid: bool,
    pub dot_size: DotSize,
    pub accent_color_rgba: Option<[u32; 4]>,
    pub panel_font_size: u16,
    pub panel_block_count: usize,
    pub panel_spacing: u16,
    pub dark_mode: bool,
    pub monospace_font: bool,
}

/// The settings as mathematical values.
pub struct ConfigView {
    pub show_panel_battery: bool,
    pub show_panel_brightness: bool,
    pub panel_order: Seq<PanelModule>,
    pub show_dot_grid: bool,
    pub dot_size: DotSize,
    pub accent_color_rgba: Option<[u32; 4]>,
    pub panel_font_size: u16,
    pub panel_block_count: usize,
    pub panel_spacing: u16,
    pub dark_mode: bool,
    pub monospace_font: bool,
}

impl View for AppletConfig {
    type V = ConfigView;

    open spec fn view(&self) -> ConfigView {
        ConfigView {
            show_panel_battery: self.show_panel_battery,
            show_panel_brightness: self.show_panel_brightness,
            panel_order: self.panel_order@,
            show_dot_grid: self.show_dot_grid,
            dot_size: self.dot_size,
            accent_color_rgba: self.accent_color_rgba,
            panel_font_size: self.panel_font_size,
            panel_block_count: self.panel_block_count,
            panel_spacing: self.panel_spacing,
            dark_mode: self.dark_mode,
            monospace_font: self.monospace_font,
        }
    }
}

/// The settings of a first launch.
pub open spec fn default_config() -> ConfigView {
    ConfigView {
        show_panel_battery: true,
        show_panel_brightness: false,
        panel_order: seq![PanelModule::Battery, PanelModule::Brightness],
        show_dot_grid: true,
        dot_size: DotSize::Standard,
        accent_color_rgba: None,
        panel_font_size: 13,
        panel_block_count: 10,
        panel_spacing: 8,
        dark_mode: false,
        monospace_font: false,
    }
}

impl Default for AppletConfig {
    fn default() -> (cfg: Self)
        ensures
            cfg@ == default_config(),
    {
        let mut order: Vec<PanelModule> = Vec::new();
        order.push(PanelModule::Battery);
        order.push(PanelModule::Brightness);
        assert(order@ =~= seq![PanelModule::Battery, PanelModule::Brightness]);
        AppletConfig {
            show_panel_battery: true,
            show_panel_brightness: false,
            panel_order: order,
            show_dot_grid: true,
            dot_size: DotSize::Standard,
            accent_color_rgba: None,
            panel_font_size: 13,
            panel_block_count: 10,
            panel_spacing: 8,
            dark_mode: false,
            monospace_font: false,
        }
    }
}

/// `s` with the items at `i` and `j` exchanged.
pub open spec fn swap_seq<A>(s: Seq<A>, i: int, j: int) -> Seq<A> {
    s.update(i, s[j]).update(j, s[i])
}

/// Whether moving the module at `idx` one place to the left is possible.
pub open spec fn can_move_left(order: Seq<PanelModule>, idx: usize) -> bool {
    0 < idx < order.len()
}

/// Whether moving the module at `idx` one place to the right is possible.
pub open spec fn can_move_right(order: Seq<PanelModule>, idx: usize) -> bool {
    idx + 1 < order.len()
}

/// `lo <= v <= hi` forced onto `v`.
pub open spec fn clamp_int(v: int, lo: int, hi: int) -> int {
    if v < lo {
        lo
    } else if v > hi {
        hi
    } else {
        v
    }
}

/// Whether `base + delta` fits in an `i16`.
pub open spec fn fits_i16(base: i16, delta: i16) -> bool {
    i16::MIN <= base + delta <= i16::MAX
}

/// The panel text size after a step of `delta`: kept within 6 ..= 24.
pub open spec fn stepped_font_size(cur: u16, delta: i16) -> u16 {
    clamp_int((cur as i16) + delta, 6, 24) as u16
}

/// The number of bar cells after a step of `delta`: kept within 1 ..= 30.
pub open spec fn stepped_block_count(cur: usize, delta: i16) -> usize {
    clamp_int((cur as i16) + delta, 1, 30) as usize
}

/// The spacing between panel modules after a step of `delta`: kept within 0 ..= 32.
pub open spec fn stepped_spacing(cur: u16, delta: i16) -> u16 {
    clamp_int((cur as i16) + delta, 0, 32) as u16
}

fn clamp_i16(v: i16, lo: i16, hi: i16) -> (r: i16)
    requires
        lo <= hi,
    ensures
        r == clamp_int(v as int, lo as int, hi as int),
{
    if v < lo {
        lo
    } else if v > hi {
        hi
    } else {
        v
    }
}

impl AppletConfig {
    /// Moves the module at `idx` one place to the left, where there is one;
    /// says whether it moved.
    pub fn move_module_left(&mut self, idx: usize) -> (moved: bool)
        ensures
            moved == can_move_left(old(self)@.panel_order, idx),
            final(self)@ == (if moved {
                (ConfigView {
                    panel_order: swap_seq(old(self)@.panel_order, idx as int, idx - 1),
                    ..old(self)@
                })
            } else {
                old(self)@
            }),
    {
        if idx > 0 && idx < self.panel_order.len() {
            let a = self.panel_order[idx];
            let b = self.panel_order[idx - 1];
            self.panel_order.set(idx, b);
            self.panel_order.set(idx - 1, a);
            true
        } else {
            false
        }
    }

    /// Moves the module at `idx` one place to the right, where there is one;
    /// says whether it moved.
    pub fn move_module_right(&mut self, idx: usize) -> (moved: bool)
        requires
            idx < usize::MAX,
        ensures
            moved == can_move_right(old(self)@.panel_order, idx),
            final(self)@ == (if moved {
                (ConfigView {
                    panel_order: swap_seq(old(self)@.panel_order, idx as int, idx + 1),
                    ..old(self)@
                })
            } else {
                old(self)@
            }),
    {
        if idx + 1 < self.panel_order.len() {
            let a = self.panel_order[idx];
            let b = self.panel_order[idx + 1];
            self.panel_order.set(idx, b);
            self.panel_order.set(idx + 1, a);
            true
        } else {
            false
        }
    }

    /// Steps the panel text size by `delta`, within 6 ..= 24.
    pub fn adjust_font_size(&mut self, delta: i16)
        requires
            fits_i16(old(self).panel_font_size as i16, delta),
        ensures
            final(self)@ == (ConfigView {
                panel_font_size: stepped_font_size(old(self)@.panel_font_size, delta),
                ..old(self)@
            }),
    {
        let v = clamp_i16(self.panel_font_size as i16 + delta, 6, 24);
        self.panel_font_size = v as u16;
    }

    /// Steps the number of bar cells by `delta`, within 1 ..= 30.
    pub fn adjust_block_count(&mut self, delta: i16)
        requires
            fits_i16(old(self).panel_block_count as i16, delta),
        ensures
            final(self)@ == (ConfigView {
                panel_block_count: stepped_block_count(old(self)@.panel_block_count, delta),
                ..old(self)@
            }),
    {
        let v = clamp_i16(self.panel_block_count as i16 + delta, 1, 30);
        self.panel_block_count = v as usize;
    }

    /// Steps the spacing between panel modules by `delta`, within 0 ..= 32.
    pub fn adjust_spacing(&mut self, delta: i16)
        requires
            fits_i16(old(self).panel_spacing as i16, delta),
        ensures
            final(self)@ == (ConfigView {
                panel_spacing: stepped_spacing(old(self)@.panel_spacing, delta),
                ..old(self)@
            }),
    {
        let v = clamp_i16(self.panel_spacing as i16 + delta, 0, 32);
        self.panel_spacing = v as u16;
    }
}

} // verus!
