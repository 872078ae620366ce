use vstd::prelude::*;
use crate::config::{
    AppletConfig, ConfigView, can_move_left, can_move_right, fits_i16, stepped_block_count,
    stepped_font_size, stepped_spacing, swap_seq,
};
use crate::types::{BatteryState, DotSize, PopupTab, cap_percent, capped_percent};

verus! {

/// What the applet is told: a timer tick, a reading that came back, or a click.
///
/// `P` is the type of a popup window's identifier; `ToggleMenu` carries a fresh
/// one, used if the click opens the popup.  An accent colour is given as the bit
/// patterns of its four `f32` channels.
pub enum Message<P> {
    Tick,
    BatteryFetched(Option<BatteryState>),
    ProfileFetched(Option<String>),
    BrightnessFetched(Option<u32>),
    ToggleMenu(P),
    SwitchTab(PopupTab),
    SetProfile(String),
    BrightnessPress(u32),
    BrightnessDragOver(u32),
    BrightnessDragEnd,
    SetAccentColor(Option<[u32; 4]>),
    TogglePanelBattery(bool),
    TogglePanelBrightness(bool),
    MoveModuleLeft(usize),
    MoveModuleRight(usize),
    ToggleDotGrid(bool),
    SetDotSize(DotSize),
    ToggleDarkMode(bool),
    ToggleMonospaceFont(bool),
    AdjustFontSize(i16),
    AdjustBlockCount(i16),
    AdjustSpacing(i16),
}

/// What the applet asks its host to do after a message.
pub enum Action<P> {
    /// Nothing.
    Nothing,
    /// Read the battery, the power profile and the brightness again.
    FetchAll,
    /// Close the popup with this identifier.
    DestroyPopup(P),
    /// Open a popup with this identifier.
    OpenPopup(P),
    /// Switch the system to this power profile, then tick.
    ApplyProfile(String),
    /// Set the screen to this brightness percentage, then report it back.
    ApplyBrightness(u32),
    /// Write the settings to disk.
    SaveConfig,
}

/// An action as a mathematical value.
pub enum ActionView<P> {
    Nothing,
    FetchAll,
    DestroyPopup(P),
    OpenPopup(P),
    ApplyProfile(Seq<char>),
    ApplyBrightness(u32),
    SaveConfig,
}

impl<P> View for Action<P> {
    type V = ActionView<P>;

    open spec fn view(&self) -> ActionView<P> {
        match self {
            Action::Nothing => ActionView::Nothing,
            Action::FetchAll => ActionView::FetchAll,
            Action::DestroyPopup(id) => ActionView::DestroyPopup(*id),
            Action::OpenPopup(id) => ActionView::OpenPopup(*id),
            Action::ApplyProfile(p) => ActionView::ApplyProfile(p@),
            Action::ApplyBrightness(pct) => ActionView::ApplyBrightness(*pct),
            Action::SaveConfig => ActionView::SaveConfig,
        }
    }
}

/// The applet's state.
pub struct BatteryApplet<P> {
    active_tab: PopupTab,
    config: AppletConfig,
    battery_percentage: u32,
    is_charging: bool,
    time_remaining: Option<u32>,
    capacity_wh: Option<u32>,
    health_percent: Option<u32>,
    active_profile: String,
    brightness_percent: u32,
    popup: Option<P>,
    is_dragging_brightness: bool,
}

/// The applet's state as mathematical values.
pub struct AppletView<P> {
    pub active_tab: PopupTab,
    pub config: ConfigView,
    pub battery_percentage: u32,
    pub is_charging: bool,
    pub time_remaining: Option<u32>,
    pub capacity_wh: Option<u32>,
    pub health_percent: Option<u32>,
    pub active_profile: Seq<char>,
    pub brightness_percent: u32,
    pub popup: Option<P>,
    pub is_dragging_brightness: bool,
}

impl<P> View for BatteryApplet<P> {
    type V = AppletView<P>;

    closed spec fn view(&self) -> AppletView<P> {
        AppletView {
            active_tab: self.active_tab,
            config: self.config@,
            battery_percentage: self.battery_percentage,
            is_charging: self.is_charging,
            time_remaining: self.time_remaining,
            capacity_wh: self.capacity_wh,
            health_percent: self.health_percent,
            active_profile: self.active_profile@,
            brightness_percent: self.brightness_percent,
            popup: self.popup,
            is_dragging_brightness: self.is_dragging_brightness,
        }
    }
}

/// The state at launch, with the settings that were loaded.
pub open spec fn initial_state<P>(config: ConfigView) -> AppletView<P> {
    AppletView {
        active_tab: PopupTab::Main,
        config,
        battery_percentage: 100,
        is_charging: false,
        time_remaining: None,
        capacity_wh: None,
        health_percent: None,
        active_profile: seq!['b', 'a', 'l', 'a', 'n', 'c', 'e', 'd'],
        brightness_percent: 100,
        popup: None,
        is_dragging_brightness: false,
    }
}

/// The messages that the applet handles without an arithmetic overflow.
pub open spec fn accepts<P>(s: AppletView<P>, m: Message<P>) -> bool {
    match m {
        Message::AdjustFontSize(d) => fits_i16(s.config.panel_font_size as i16, d),
        Message::AdjustBlockCount(d) => fits_i16(s.config.panel_block_count as i16, d),
        Message::AdjustSpacing(d) => fits_i16(s.config.panel_spacing as i16, d),
        Message::MoveModuleRight(idx) => idx < usize::MAX,
        _ => true,
    }
}

/// The new settings after a settings message, where the settings change
/// and are to be saved; `None` for every other message.
pub open spec fn config_step<P>(c: ConfigView, m: Message<P>) -> Option<ConfigView> {
    match m {
        Message::SetAccentColor(color) => Some(ConfigView { accent_color_rgba: color, ..c }),
        Message::TogglePanelBattery(v) => Some(ConfigView { show_panel_battery: v, ..c }),
        Message::TogglePanelBrightness(v) => Some(ConfigView { show_panel_brightness: v, ..c }),
        Message::MoveModuleLeft(idx) => if can_move_left(c.panel_order, idx) {
            Some(ConfigView { panel_order: swap_seq(c.panel_order, idx as int, idx - 1), ..c })
        } else {
            None
        },
        Message::MoveModuleRight(idx) => if can_move_right(c.panel_order, idx) {
            Some(ConfigView { panel_order: swap_seq(c.panel_order, idx as int, idx + 1), ..c })
        } else {
            None
        },
        Message::ToggleDotGrid(v) => Some(ConfigView { show_dot_grid: v, ..c }),
        Message::SetDotSize(size) => Some(ConfigView { dot_size: size, ..c }),
        Message::ToggleDarkMode(v) => Some(ConfigView { dark_mode: v, ..c }),
        Message::ToggleMonospaceFont(v) => Some(ConfigView { monospace_font: v, ..c }),
        Message::AdjustFontSize(d) => Some(
            ConfigView { panel_font_size: stepped_font_size(c.panel_font_size, d), ..c },
        ),
        Message::AdjustBlockCount(d) => Some(
            ConfigView { panel_block_count: stepped_block_count(c.panel_block_count, d), ..c },
        ),
        Message::AdjustSpacing(d) => Some(
            ConfigView { panel_spacing: stepped_spacing(c.panel_spacing, d), ..c },
        ),
        _ => None,
    }
}

/// Whether `m` is one of the messages that edit the settings.
pub open spec fn is_settings_message<P>(m: Message<P>) -> bool {
    ||| m is SetAccentColor
    ||| m is TogglePanelBattery
    ||| m is TogglePanelBrightness
    ||| m is MoveModuleLeft
    ||| m is MoveModuleRight
    ||| m is ToggleDotGrid
    ||| m is SetDotSize
    ||| m is ToggleDarkMode
    ||| m is ToggleMonospaceFont
    ||| m is AdjustFontSize
    ||| m is AdjustBlockCount
    ||| m is AdjustSpacing
}

/// The state after `m`, and what the host is asked to do.
pub open spec fn step<P>(s: AppletView<P>, m: Message<P>) -> (AppletView<P>, ActionView<P>) {
    match m {
        Message::Tick => (s, ActionView::FetchAll),
        Message::BatteryFetched(Some(st)) => (
            AppletView {
                battery_percentage: st.percentage,
                is_charging: st.is_charging,
                time_remaining: st.time_remaining,
                capacity_wh: st.capacity_wh,
                health_percent: st.health_percent,
                ..s
            },
            ActionView::Nothing,
        ),
        Message::ProfileFetched(Some(p)) => (
            AppletView { active_profile: p@, ..s },
            ActionView::Nothing,
        ),
        Message::BrightnessFetched(Some(pct)) => (
            if s.is_dragging_brightness {
                s
            } else {
                AppletView { brightness_percent: pct, ..s }
            },
            ActionView::Nothing,
        ),
        Message::ToggleMenu(fresh) => match s.popup {
            Some(id) => (AppletView { popup: None, ..s }, ActionView::DestroyPopup(id)),
            None => (AppletView { popup: Some(fresh), ..s }, ActionView::OpenPopup(fresh)),
        },
        Message::SwitchTab(tab) => (AppletView { active_tab: tab, ..s }, ActionView::Nothing),
        Message::SetProfile(p) => (
            AppletView { active_profile: p@, ..s },
            ActionView::ApplyProfile(p@),
        ),
        Message::BrightnessPress(pct) => (
            AppletView {
                is_dragging_brightness: true,
                brightness_percent: capped_percent(pct),
                ..s
            },
            ActionView::ApplyBrightness(capped_percent(pct)),
        ),
        Message::BrightnessDragOver(pct) => if s.is_dragging_brightness {
            (
                AppletView { brightness_percent: capped_percent(pct), ..s },
                ActionView::ApplyBrightness(capped_percent(pct)),
            )
        } else {
            (s, ActionView::Nothing)
        },
        Message::BrightnessDragEnd => (
            AppletView { is_dragging_brightness: false, ..s },
            ActionView::Nothing,
        ),
        _ => match config_step(s.config, m) {
            Some(c) => (AppletView { config: c, ..s }, ActionView::SaveConfig),
            None => (s, ActionView::Nothing),
        },
    }
}

impl<P: Copy> BatteryApplet<P> {
    /// The state at launch, with the settings that were loaded.
    pub fn new(config: AppletConfig) -> (applet: Self)
        ensures
            applet@ == initial_state::<P>(config@),
    {
        let mut profile = String::new();
        profile.append("balanced");
        proof {
            reveal_strlit("balanced");
            assert(profile@ =~= seq!['b', 'a', 'l', 'a', 'n', 'c', 'e', 'd']);
        }
        BatteryApplet {
            active_tab: PopupTab::Main,
            config,
            battery_percentage: 100,
            is_charging: false,
            time_remaining: None,
            capacity_wh: None,
            health_percent: None,
            active_profile: profile,
            brightness_percent: 100,
            popup: None,
            is_dragging_brightness: false,
        }
    }

    /// The state at launch and the first request, for fresh readings.
    pub fn init(config: AppletConfig) -> (launched: (Self, Action<P>))
        ensures
            launched.0@ == initial_state::<P>(config@),
            launched.1@ == ActionView::<P>::FetchAll,
    {
        (BatteryApplet::new(config), Action::FetchAll)
    }

    /// The popup page that is shown.
    pub fn active_tab(&self) -> (tab: PopupTab)
        ensures
            tab == self@.active_tab,
    {
        self.active_tab
    }

    /// The settings.
    pub fn config(&self) -> (config: &AppletConfig)
        ensures
            config@ == self@.config,
    {
        &self.config
    }

    /// The last battery percentage read.
    pub fn battery_percentage(&self) -> (pct: u32)
        ensures
            pct == self@.battery_percentage,
    {
        self.battery_percentage
    }

    /// Whether the battery was charging (or full) at the last reading.
    pub fn is_charging(&self) -> (charging: bool)
        ensures
            charging == self@.is_charging,
    {
        self.is_charging
    }

    /// The time to full or to empty of the last reading, as `f32` bits.
    pub fn time_remaining(&self) -> (t: Option<u32>)
        ensures
            t == self@.time_remaining,
    {
        self.time_remaining
    }

    /// The full-charge energy of the last reading, in watt-hours.
    pub fn capacity_wh(&self) -> (c: Option<u32>)
        ensures
            c == self@.capacity_wh,
    {
        self.capacity_wh
    }

    /// The battery health of the last reading, in percent of the design capacity.
    pub fn health_percent(&self) -> (h: Option<u32>)
        ensures
            h == self@.health_percent,
    {
        self.health_percent
    }

    /// The power profile last read or chosen.
    pub fn active_profile(&self) -> (profile: &String)
        ensures
            profile@ == self@.active_profile,
    {
        &self.active_profile
    }

    /// The screen brightness percentage last read or chosen.
    pub fn brightness_percent(&self) -> (pct: u32)
        ensures
            pct == self@.brightness_percent,
    {
        self.brightness_percent
    }

    /// The open popup, if any.
    pub fn popup(&self) -> (popup: Option<P>)
        ensures
            popup == self@.popup,
    {
        self.popup
    }

    /// Whether the brightness slider is being dragged.
    pub fn is_dragging_brightness(&self) -> (dragging: bool)
        ensures
            dragging == self@.is_dragging_brightness,
    {
        self.is_dragging_brightness
    }

    /// Whether `update` can take `message` in this state (it cannot where a
    /// dimension step would overflow an `i16`, or a module index is `usize::MAX`).
    pub fn accepts(&self, message: &Message<P>) -> (ok: bool)
        ensures
            ok == accepts(self@, *message),
    {
        match message {
            Message::AdjustFontSize(d) => {
                let base = self.config.panel_font_size as i16;
                (*d >= 0 && base <= i16::MAX - *d) || (*d < 0 && base >= i16::MIN - *d)
            },
            Message::AdjustBlockCount(d) => {
                let base = self.config.panel_block_count as i16;
                (*d >= 0 && base <= i16::MAX - *d) || (*d < 0 && base >= i16::MIN - *d)
            },
            Message::AdjustSpacing(d) => {
                let base = self.config.panel_spacing as i16;
                (*d >= 0 && base <= i16::MAX - *d) || (*d < 0 && base >= i16::MIN - *d)
            },
            Message::MoveModuleRight(idx) => *idx < usize::MAX,
            _ => true,
        }
    }

    /// Handles a settings message, as `update` does.
    fn apply_settings(&mut self, message: Message<P>) -> (action: Action<P>)
        requires
            is_settings_message(message),
            accepts(old(self)@, message),
        ensures
            (final(self)@, action@) == step(old(self)@, message),
    {
        match message {
            Message::SetAccentColor(color) => {
                self.config.accent_color_rgba = color;
                Action::SaveConfig
            },
            Message::TogglePanelBattery(v) => {
                self.config.show_panel_battery = v;
                Action::SaveConfig
            },
            Message::TogglePanelBrightness(v) => {
                self.config.show_panel_brightness = v;
                Action::SaveConfig
            },
            Message::MoveModuleLeft(idx) => {
                if self.config.move_module_left(idx) {
                    Action::SaveConfig
                } else {
                    Action::Nothing
                }
            },
            Message::MoveModuleRight(idx) => {
                if self.config.move_module_right(idx) {
                    Action::SaveConfig
                } else {
                    Action::Nothing
                }
            },
            Message::ToggleDotGrid(v) => {
                self.config.show_dot_grid = v;
                Action::SaveConfig
            },
            Message::SetDotSize(size) => {
                self.config.dot_size = size;
                Action::SaveConfig
            },
            Message::ToggleDarkMode(v) => {
                self.config.dark_mode = v;
                Action::SaveConfig
            },
            Message::ToggleMonospaceFont(v) => {
                self.config.monospace_font = v;
                Action::SaveConfig
            },
            Message::AdjustFontSize(d) => {
                self.config.adjust_font_size(d);
                Action::SaveConfig
            },
            Message::AdjustBlockCount(d) => {
                self.config.adjust_block_count(d);
                Action::SaveConfig
            },
            Message::AdjustSpacing(d) => {
                self.config.adjust_spacing(d);
                Action::SaveConfig
            },
            _ => Action::Nothing,
        }
    }

    /// Handles one message: the state changes as `step` says, and the host is
    /// asked for the action that `step` gives.
    pub fn update(&mut self, message: Message<P>) -> (action: Action<P>)
        requires
            accepts(old(self)@, message),
        ensures
            (final(self)@, action@) == step(old(self)@, message),
    {
        match message {
            Message::Tick => Action::FetchAll,
            Message::BatteryFetched(Some(state)) => {
                self.battery_percentage = state.percentage;
                self.is_charging = state.is_charging;
                self.time_remaining = state.time_remaining;
                self.capacity_wh = state.capacity_wh;
                self.health_percent = state.health_percent;
                Action::Nothing
            },
            Message::BatteryFetched(None) => Action::Nothing,
            Message::ProfileFetched(Some(profile)) => {
                self.active_profile = profile;
                Action::Nothing
            },
            Message::ProfileFetched(None) => Action::Nothing,
            Message::BrightnessFetched(Some(pct)) => {
                if !self.is_dragging_brightness {
                    self.brightness_percent = pct;
                }
                Action::Nothing
            },
            Message::BrightnessFetched(None) => Action::Nothing,
            Message::ToggleMenu(fresh) => {
                match self.popup.take() {
                    Some(id) => Action::DestroyPopup(id),
                    None => {
                        let opened = Action::OpenPopup(fresh);
                        self.popup = Some(fresh);
                        opened
                    },
                }
            },
            Message::SwitchTab(tab) => {
                self.active_tab = tab;
                Action::Nothing
            },
            Message::SetProfile(profile) => {
                self.active_profile = profile.clone();
                Action::ApplyProfile(profile)
            },
            Message::BrightnessPress(pct) => {
                let pct = cap_percent(pct);
                self.is_dragging_brightness = true;
                self.brightness_percent = pct;
                Action::ApplyBrightness(pct)
            },
            Message::BrightnessDragOver(pct) => {
                if self.is_dragging_brightness {
                    let pct = cap_percent(pct);
                    self.brightness_percent = pct;
                    Action::ApplyBrightness(pct)
                } else {
                    Action::Nothing
                }
            },
            Message::BrightnessDragEnd => {
                self.is_dragging_brightness = false;
                Action::Nothing
            },
            _ => self.apply_settings(message),
        }
    }
}

} // verus!
