//! State of the main window: what it shows of the headset and the
//! microphone, the settings being edited, and how it answers the tray, the
//! Bluetooth monitor and its own buttons.

use vstd::prelude::*;
use vstd::string::StringExecFns;

use crate::bluetooth::BluetoothState;
use crate::config::{keybind_name, Config, Keybind};
use crate::media_hook::{self, HookState, MediaHook};
use crate::mute_handler::{after_request, request_key, MuteHandler, MuteState};
use crate::text::{decimal, lemma_shows_decimal, push_decimal, shows_number};
use crate::tray::TrayCommand;
use crate::tray::windows::{
    battery_update, enabled_update, merged, mute_update, no_refresh, TrayRefresh, TrayState,
    WindowsTray,
};

verus! {

/// Tabs of the full window.
#[derive(Debug, Clone, Copy, PartialEq, Eq, Structural)]
pub enum Tab {
    Dashboard,
    Settings,
}

impl Default for Tab {
    fn default() -> (t: Self)
        ensures
            t == Tab::Dashboard,
    {
        Tab::Dashboard
    }
}

/// Colors of the window's labels.
#[derive(Debug, Clone, Copy, PartialEq, Eq, Structural)]
pub enum LabelColor {
    Green,
    Yellow,
    Red,
    Gray,
}

/// A colored line of text.
#[derive(Debug)]
pub struct Label {
    pub text: String,
    pub color: LabelColor,
}

/// What the window is to do after a command from the tray.
#[derive(Debug, Clone, Copy, PartialEq, Eq, Structural)]
pub enum CommandEffect {
    /// Restore, show and focus the window.
    ShowWindow,
    /// Quit the application.
    Quit,
    /// Redraw these parts of the tray icon.
    RedrawTray(TrayRefresh),
}

/// State of the main window.
pub struct TapMuteApp {
    /// The configuration as edited in the window.
    pub config: Config,
    /// Whether the edited configuration differs from the saved one.
    pub needs_save: bool,
    pub bt_connected: bool,
    pub battery_percent: u8,
    pub is_muted: bool,
    pub selected_tab: Tab,
    pub tray: Option<WindowsTray>,
}

/// The tray after it has taken the window's battery level (never charging),
/// mute state and enabled flag, with what is to be redrawn.
pub open spec fn tray_sync(t: TrayState, percent: u8, muted: bool, enabled: bool) -> (TrayState, TrayRefresh) {
    let (t1, r1) = battery_update(t, percent, false);
    let (t2, r2) = mute_update(t1, muted);
    let (t3, r3) = enabled_update(t2, enabled);
    (t3, merged(merged(r1, r2), r3))
}

/// The window's fields other than the configuration and the tray are those
/// of `b`.
pub open spec fn same_status(a: TapMuteApp, b: TapMuteApp) -> bool {
    &&& a.needs_save == b.needs_save
    &&& a.bt_connected == b.bt_connected
    &&& a.battery_percent == b.battery_percent
    &&& a.is_muted == b.is_muted
    &&& a.selected_tab == b.selected_tab
}

/// After the window has synchronized the tray: `after` holds the tray state
/// that `before`'s tray takes from `before`'s values, and `r` is what is
/// to be redrawn.
pub open spec fn synced(before: TapMuteApp, after: TapMuteApp, r: TrayRefresh) -> bool {
    match before.tray {
        Some(t) => after.tray matches Some(t2) && (t2@, r) == tray_sync(
            t@,
            before.battery_percent,
            before.is_muted,
            before.config.enabled,
        ),
        None => after.tray is None && r == no_refresh(),
    }
}

/// Color of a battery level: green above 50 %, yellow above 20 %, red
/// above 0 %, gray when there is no level.
pub open spec fn battery_color(percent: u8) -> LabelColor {
    if percent > 50 {
        LabelColor::Green
    } else if percent > 20 {
        LabelColor::Yellow
    } else if percent > 0 {
        LabelColor::Red
    } else {
        LabelColor::Gray
    }
}

/// Battery line of the compact window.
pub open spec fn compact_battery_text(percent: u8, connected: bool) -> Seq<char> {
    if percent > 0 {
        "🔋 "@ + decimal(percent as nat) + "%"@
    } else if connected {
        "🔋 Батарея недоступна"@
    } else {
        "❌ BT не подключён"@
    }
}

/// Bluetooth status in the top bar of the full window.
pub open spec fn status_text(percent: u8, connected: bool) -> Seq<char> {
    if connected {
        if percent > 0 {
            "🎧 BT подключён"@ + " ("@ + decimal(percent as nat) + "%)"@
        } else {
            "🎧 BT подключён"@
        }
    } else {
        "❌ BT не подключён"@
    }
}

/// Battery line of the dashboard.
pub open spec fn dashboard_battery_text(percent: u8, connected: bool) -> Seq<char> {
    if percent > 0 {
        decimal(percent as nat) + "%"@
    } else if connected {
        "Батарея недоступна (устройство не поддерживает GATT)"@
    } else {
        "BT не подключён"@
    }
}

impl TapMuteApp {
    /// The window for `config`, with the tray `tray`: nothing to save, no
    /// headset, microphone on, dashboard tab.
    pub fn new(config: Config, tray: WindowsTray) -> (app: TapMuteApp)
        ensures
            app.config == config,
            app.tray == Some(tray),
            !app.needs_save,
            !app.bt_connected,
            app.battery_percent == 0,
            !app.is_muted,
            app.selected_tab == Tab::Dashboard,
    {
        TapMuteApp {
            config,
            needs_save: false,
            bt_connected: false,
            battery_percent: 0,
            is_muted: false,
            selected_tab: Tab::Dashboard,
            tray: Some(tray),
        }
    }

    /// Hands the window's battery level, mute state and enabled flag to the
    /// tray, and says what of the tray icon is to be redrawn.
    pub fn sync_tray(&mut self) -> (r: TrayRefresh)
        ensures
            synced(*old(self), *final(self), r),
            final(self).config == old(self).config,
            same_status(*final(self), *old(self)),
    {
        match &mut self.tray {
            Some(tray) => {
                let r1 = tray.update_battery(self.battery_percent, false);
                let r2 = tray.update_mute(self.is_muted);
                let r3 = tray.set_enabled(self.config.enabled);
                r1.merge(r2).merge(r3)
            },
            None => TrayRefresh::none(),
        }
    }

    /// Takes a state from the Bluetooth monitor and passes it on to the
    /// tray.
    pub fn on_bluetooth_state(&mut self, state: BluetoothState) -> (r: TrayRefresh)
        ensures
            final(self).bt_connected == state.connected,
            final(self).battery_percent == state.battery_percent,
            final(self).config == old(self).config,
            final(self).needs_save == old(self).needs_save,
            final(self).is_muted == old(self).is_muted,
            final(self).selected_tab == old(self).selected_tab,
            synced(
                TapMuteApp {
                    bt_connected: state.connected,
                    battery_percent: state.battery_percent,
                    ..*old(self)
                },
                *final(self),
                r,
            ),
    {
        self.bt_connected = state.connected;
        self.battery_percent = state.battery_percent;
        self.sync_tray()
    }

    /// Flips the microphone's mute state and passes it on to the tray.
    pub fn toggle_mute(&mut self) -> (r: TrayRefresh)
        ensures
            final(self).is_muted == !old(self).is_muted,
            final(self).config == old(self).config,
            final(self).needs_save == old(self).needs_save,
            final(self).bt_connected == old(self).bt_connected,
            final(self).battery_percent == old(self).battery_percent,
            final(self).selected_tab == old(self).selected_tab,
            synced(TapMuteApp { is_muted: !old(self).is_muted, ..*old(self) }, *final(self), r),
    {
        self.is_muted = !self.is_muted;
        self.sync_tray()
    }

    /// Answers a command from the tray.
    pub fn on_tray_command(&mut self, cmd: TrayCommand) -> (r: Option<CommandEffect>)
        ensures
            cmd == TrayCommand::ShowWindow ==> r == Some(CommandEffect::ShowWindow) && *final(self)
                == *old(self),
            cmd == TrayCommand::Quit ==> r == Some(CommandEffect::Quit) && *final(self) == *old(self),
            cmd == TrayCommand::RefreshBattery ==> r is None && *final(self) == *old(self),
            cmd == TrayCommand::ToggleMute ==> {
                &&& r matches Some(CommandEffect::RedrawTray(refresh))
                &&& final(self).is_muted == !old(self).is_muted
                &&& final(self).config == old(self).config
                &&& final(self).needs_save == old(self).needs_save
                &&& final(self).bt_connected == old(self).bt_connected
                &&& final(self).battery_percent == old(self).battery_percent
                &&& final(self).selected_tab == old(self).selected_tab
                &&& synced(TapMuteApp { is_muted: !old(self).is_muted, ..*old(self) }, *final(self), refresh)
            },
    {
        match cmd {
            TrayCommand::ShowWindow => Some(CommandEffect::ShowWindow),
            TrayCommand::ToggleMute => Some(CommandEffect::RedrawTray(self.toggle_mute())),
            TrayCommand::Quit => Some(CommandEffect::Quit),
            TrayCommand::RefreshBattery => None,
        }
    }

    /// The compact-mode button of the full window: flips compact mode and
    /// marks the configuration unsaved. Returns whether the window is to be
    /// resized to its full size.
    pub fn toggle_compact(&mut self) -> (grow: bool)
        ensures
            final(self).config == (Config { compact_mode: !old(self).config.compact_mode, ..old(self).config }),
            final(self).needs_save,
            grow == !final(self).config.compact_mode,
            final(self).tray == old(self).tray,
            same_status(*final(self), TapMuteApp { needs_save: true, ..*old(self) }),
    {
        self.config.compact_mode = !self.config.compact_mode;
        self.needs_save = true;
        !self.config.compact_mode
    }

    /// The expand button of the compact window: leaves compact mode and
    /// marks the configuration unsaved.
    pub fn expand(&mut self)
        ensures
            final(self).config == (Config { compact_mode: false, ..old(self).config }),
            final(self).needs_save,
            final(self).tray == old(self).tray,
            same_status(*final(self), TapMuteApp { needs_save: true, ..*old(self) }),
    {
        self.config.compact_mode = false;
        self.needs_save = true;
    }

    /// Picks a keybind in the settings; picking a different one marks the
    /// configuration unsaved.
    pub fn select_keybind(&mut self, keybind: Keybind)
        ensures
            final(self).config == (Config { keybind, ..old(self).config }),
            final(self).needs_save == (old(self).needs_save || old(self).config.keybind != keybind),
            final(self).tray == old(self).tray,
            same_status(*final(self), TapMuteApp { needs_save: final(self).needs_save, ..*old(self) }),
    {
        if self.config.keybind != keybind {
            self.config.keybind = keybind;
            self.needs_save = true;
        }
    }

    /// The "enable TapMute" checkbox; a change marks the configuration
    /// unsaved.
    pub fn set_enabled_setting(&mut self, enabled: bool)
        ensures
            final(self).config == (Config { enabled, ..old(self).config }),
            final(self).needs_save == (old(self).needs_save || old(self).config.enabled != enabled),
            final(self).tray == old(self).tray,
            same_status(*final(self), TapMuteApp { needs_save: final(self).needs_save, ..*old(self) }),
    {
        if self.config.enabled != enabled {
            self.config.enabled = enabled;
            self.needs_save = true;
        }
    }

    /// The "start with the system" checkbox; a change marks the
    /// configuration unsaved.
    pub fn set_start_with_os(&mut self, start: bool)
        ensures
            final(self).config == (Config { start_with_os: start, ..old(self).config }),
            final(self).needs_save == (old(self).needs_save || old(self).config.start_with_os != start),
            final(self).tray == old(self).tray,
            same_status(*final(self), TapMuteApp { needs_save: final(self).needs_save, ..*old(self) }),
    {
        if self.config.start_with_os != start {
            self.config.start_with_os = start;
            self.needs_save = true;
        }
    }

    /// The double-tap timeout slider: the value changes, and the
    /// configuration counts as unsaved only once "Apply" is pressed.
    pub fn set_double_tap_ms(&mut self, ms: u64)
        ensures
            final(self).config == (Config { double_tap_ms: ms, ..old(self).config }),
            final(self).tray == old(self).tray,
            same_status(*final(self), *old(self)),
    {
        self.config.double_tap_ms = ms;
    }

    /// The "Apply" button of the double-tap timeout.
    pub fn apply_double_tap(&mut self)
        ensures
            final(self).config == old(self).config,
            final(self).tray == old(self).tray,
            same_status(*final(self), TapMuteApp { needs_save: true, ..*old(self) }),
    {
        self.needs_save = true;
    }

    /// After the configuration has been written (`written` says whether that
    /// succeeded): a successful write clears the unsaved mark, and in any
    /// case the hook and the mute sender take the enabled flag, the timeout
    /// and the keybind of the configuration.
    pub fn save_config(&mut self, written: bool, hook: &mut MediaHook, handler: &mut MuteHandler)
        ensures
            final(self).needs_save == (old(self).needs_save && !written),
            final(self).config == old(self).config,
            final(self).tray == old(self).tray,
            same_status(*final(self), TapMuteApp { needs_save: final(self).needs_save, ..*old(self) }),
            final(hook)@ == (HookState {
                enabled: old(self).config.enabled,
                double_tap_ms: old(self).config.double_tap_ms,
                ..old(hook)@
            }),
            final(handler)@ == (MuteState { keybind: keybind_name(old(self).config.keybind), ..old(handler)@ }),
    {
        if written {
            self.needs_save = false;
        }
        media_hook::set_enabled(hook, self.config.enabled);
        media_hook::set_double_tap_ms(hook, self.config.double_tap_ms);
        handler.set_keybind(self.config.keybind.as_str());
    }

    /// The "Test Mute" button: a request to the mute sender at `now_ns`.
    /// The key pressed is the one last set in the mute sender (the
    /// configured keybind where the name set there names no keybind).
    pub fn test_mute(&self, handler: &mut MuteHandler, now_ns: u64) -> (r: Option<Keybind>)
        ensures
            final(handler)@ == after_request(old(handler)@, now_ns),
            r == request_key(old(handler)@, now_ns, self.config.keybind),
    {
        handler.test_mute(&self.config.keybind, now_ns)
    }

    /// Color of the window's battery level.
    pub fn battery_color(&self) -> (c: LabelColor)
        ensures
            c == battery_color(self.battery_percent),
    {
        if self.battery_percent > 50 {
            LabelColor::Green
        } else if self.battery_percent > 20 {
            LabelColor::Yellow
        } else if self.battery_percent > 0 {
            LabelColor::Red
        } else {
            LabelColor::Gray
        }
    }

    /// Battery line of the compact window.
    pub fn compact_battery_label(&self) -> (l: Label)
        ensures
            l.text@ == compact_battery_text(self.battery_percent, self.bt_connected),
            l.color == battery_color(self.battery_percent),
    {
        let text = if self.battery_percent > 0 {
            let mut t = String::from_str("🔋 ");
            push_decimal(&mut t, self.battery_percent);
            t.append("%");
            t
        } else if self.bt_connected {
            String::from_str("🔋 Батарея недоступна")
        } else {
            String::from_str("❌ BT не подключён")
        };
        Label { text, color: self.battery_color() }
    }

    /// Bluetooth status in the top bar of the full window, green when
    /// connected and red otherwise.
    pub fn status_label(&self) -> (l: Label)
        ensures
            l.text@ == status_text(self.battery_percent, self.bt_connected),
            l.color == (if self.bt_connected { LabelColor::Green } else { LabelColor::Red }),
    {
        if self.bt_connected {
            let mut t = String::from_str("🎧 BT подключён");
            if self.battery_percent > 0 {
                t.append(" (");
                push_decimal(&mut t, self.battery_percent);
                t.append("%)");
            }
            Label { text: t, color: LabelColor::Green }
        } else {
            Label { text: String::from_str("❌ BT не подключён"), color: LabelColor::Red }
        }
    }

    /// Battery line of the dashboard: the level in the color of
    /// [`battery_color`], or a gray note when there is none.
    pub fn dashboard_battery_label(&self) -> (l: Label)
        ensures
            l.text@ == dashboard_battery_text(self.battery_percent, self.bt_connected),
            l.color == battery_color(self.battery_percent),
    {
        let text = if self.battery_percent > 0 {
            let mut t = String::new();
            push_decimal(&mut t, self.battery_percent);
            t.append("%");
            t
        } else if self.bt_connected {
            String::from_str("Батарея недоступна (устройство не поддерживает GATT)")
        } else {
            String::from_str("BT не подключён")
        };
        Label { text, color: self.battery_color() }
    }

    /// Microphone line of the compact window.
    pub fn compact_mic_label(&self) -> (l: Label)
        ensures
            l.text@ == (if self.is_muted { "🔇 Мьют"@ } else { "🎙️ Микрофон вкл"@ }),
            l.color == (if self.is_muted { LabelColor::Red } else { LabelColor::Green }),
    {
        if self.is_muted {
            Label { text: String::from_str("🔇 Мьют"), color: LabelColor::Red }
        } else {
            Label { text: String::from_str("🎙️ Микрофон вкл"), color: LabelColor::Green }
        }
    }

    /// Bluetooth line of the compact window.
    pub fn compact_bt_label(&self) -> (l: Label)
        ensures
            l.text@ == (if self.bt_connected { "🎧 BT подключено"@ } else { "❌ BT не подключено"@ }),
            l.color == (if self.bt_connected { LabelColor::Green } else { LabelColor::Red }),
    {
        if self.bt_connected {
            Label { text: String::from_str("🎧 BT подключено"), color: LabelColor::Green }
        } else {
            Label { text: String::from_str("❌ BT не подключено"), color: LabelColor::Red }
        }
    }

    /// Microphone line of the dashboard.
    pub fn dashboard_mic_label(&self) -> (l: Label)
        ensures
            l.text@ == (if self.is_muted { "🔇 Мьют"@ } else { "🎙️ Активен"@ }),
            l.color == (if self.is_muted { LabelColor::Red } else { LabelColor::Green }),
    {
        if self.is_muted {
            Label { text: String::from_str("🔇 Мьют"), color: LabelColor::Red }
        } else {
            Label { text: String::from_str("🎙️ Активен"), color: LabelColor::Green }
        }
    }

    /// Bluetooth line of the dashboard.
    pub fn dashboard_bt_label(&self) -> (l: Label)
        ensures
            l.text@ == (if self.bt_connected { "🎧 Подключено"@ } else { "❌ Не подключено"@ }),
            l.color == (if self.bt_connected { LabelColor::Green } else { LabelColor::Red }),
    {
        if self.bt_connected {
            Label { text: String::from_str("🎧 Подключено"), color: LabelColor::Green }
        } else {
            Label { text: String::from_str("❌ Не подключено"), color: LabelColor::Red }
        }
    }

    /// Caption of the dashboard's mute button.
    pub fn mute_button_text(&self) -> (s: &'static str)
        ensures
            s@ == (if self.is_muted { "🎙️ Размьютить"@ } else { "🔇 Замьютить"@ }),
    {
        if self.is_muted {
            "🎙️ Размьютить"
        } else {
            "🔇 Замьютить"
        }
    }
}

/// After a synchronization the tray shows exactly the window's battery
/// level (not charging), mute state and enabled flag, and a second
/// synchronization redraws nothing.
pub proof fn lemma_sync_mirrors_window(t: TrayState, percent: u8, muted: bool, enabled: bool)
    ensures
        tray_sync(t, percent, muted, enabled).0 == (TrayState {
            percent,
            charging: false,
            muted,
            enabled,
        }),
        tray_sync(tray_sync(t, percent, muted, enabled).0, percent, muted, enabled) == (
        tray_sync(t, percent, muted, enabled).0, no_refresh()),
{
}

/// Every change that a synchronization hands to the tray is redrawn: a new
/// battery level (or the end of charging) redraws the tooltip, the icon and
/// the menu; a new mute state the tooltip and the menu; a new enabled flag
/// the menu. Without any change nothing is redrawn, and the icon is redrawn
/// only for the battery.
pub proof fn lemma_sync_refresh_covers_changes(t: TrayState, percent: u8, muted: bool, enabled: bool)
    ensures
        ({
            let r = tray_sync(t, percent, muted, enabled).1;
            &&& (t.percent != percent || t.charging) ==> r.tooltip && r.icon && r.menu
            &&& t.muted != muted ==> r.tooltip && r.menu
            &&& t.enabled != enabled ==> r.menu
            &&& r.icon ==> (t.percent != percent || t.charging)
            &&& (t.percent == percent && !t.charging && t.muted == muted && t.enabled == enabled)
                ==> r == no_refresh()
        }),
{
}

/// The battery lines show the battery level itself, as its decimal number:
/// the compact line after "🔋 ", the dashboard line alone before "%", and
/// the top bar in brackets after the connection status.
pub proof fn lemma_battery_texts_show_level(percent: u8, connected: bool)
    requires
        percent > 0,
    ensures
        shows_number(compact_battery_text(percent, connected), "🔋 "@, "%"@, percent as nat),
        shows_number(dashboard_battery_text(percent, connected), Seq::empty(), "%"@, percent as nat),
        shows_number(status_text(percent, true), "🎧 BT подключён"@ + " ("@, "%)"@, percent as nat),
{
    let n = percent as nat;
    lemma_shows_decimal("🔋 "@, n, "%"@);
    lemma_shows_decimal(Seq::empty(), n, "%"@);
    assert(dashboard_battery_text(percent, connected) =~= Seq::<char>::empty() + decimal(n) + "%"@);
    lemma_shows_decimal("🎧 BT подключён"@ + " ("@, n, "%)"@);
}

/// The battery color goes by the level: green above 50 %, yellow above
/// 20 % up to 50 %, red above 0 % up to 20 %, gray without a level.
pub proof fn lemma_battery_color_thresholds(percent: u8)
    ensures
        battery_color(percent) == LabelColor::Green <==> percent > 50,
        battery_color(percent) == LabelColor::Yellow <==> 20 < percent <= 50,
        battery_color(percent) == LabelColor::Red <==> 0 < percent <= 20,
        battery_color(percent) == LabelColor::Gray <==> percent == 0,
{
}

} // verus!
