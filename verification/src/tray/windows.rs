//! State of the tray icon: the battery level, charging, mute and enabled
//! flags it shows, which parts of the icon a change redraws, and the texts
//! of its tooltip and menu.

use vstd::prelude::*;
use vstd::string::StringExecFns;

use super::TrayCommand;
use crate::text::{decimal, ends_with, lemma_shows_decimal, push_decimal, shows_number};

verus! {

/// State shown by the tray icon.
pub struct WindowsTray {
    last_percent: u8,
    last_charging: bool,
    last_muted: bool,
    enabled: bool,
}

/// The tray's state, as the contracts speak of it.
pub struct TrayState {
    pub percent: u8,
    pub charging: bool,
    pub muted: bool,
    pub enabled: bool,
}

impl View for WindowsTray {
    type V = TrayState;

    closed spec fn view(&self) -> TrayState {
        TrayState {
            percent: self.last_percent,
            charging: self.last_charging,
            muted: self.last_muted,
            enabled: self.enabled,
        }
    }
}

/// Which parts of the tray icon are to be redrawn.
#[derive(Debug, Clone, Copy, PartialEq, Eq, Structural)]
pub struct TrayRefresh {
    pub tooltip: bool,
    pub icon: bool,
    pub menu: bool,
}

/// Nothing to redraw.
pub open spec fn no_refresh() -> TrayRefresh {
    TrayRefresh { tooltip: false, icon: false, menu: false }
}

/// Redraws what either refresh asks for.
pub open spec fn merged(a: TrayRefresh, b: TrayRefresh) -> TrayRefresh {
    TrayRefresh { tooltip: a.tooltip || b.tooltip, icon: a.icon || b.icon, menu: a.menu || b.menu }
}

impl TrayRefresh {
    /// Nothing to redraw.
    pub fn none() -> (r: TrayRefresh)
        ensures
            r == no_refresh(),
    {
        TrayRefresh { tooltip: false, icon: false, menu: false }
    }

    /// Redraws what either refresh asks for.
    pub fn merge(self, other: TrayRefresh) -> (r: TrayRefresh)
        ensures
            r == merged(self, other),
    {
        TrayRefresh {
            tooltip: self.tooltip || other.tooltip,
            icon: self.icon || other.icon,
            menu: self.menu || other.menu,
        }
    }
}

/// One entry of the tray's context menu.
#[derive(Debug)]
pub enum MenuEntry {
    /// A line of information that cannot be clicked.
    Info(String),
    Separator,
    /// A line that sends the command when clicked.
    Action(String, TrayCommand),
}

/// The entry's text, empty for a separator.
pub open spec fn entry_text(e: MenuEntry) -> Seq<char> {
    match e {
        MenuEntry::Info(t) => t@,
        MenuEntry::Action(t, _) => t@,
        MenuEntry::Separator => Seq::empty(),
    }
}

/// The battery line of the menu.
pub open spec fn battery_menu_text(s: TrayState) -> Seq<char> {
    if s.charging {
        "⚡ Заряд: "@ + decimal(s.percent as nat) + "%"@
    } else if s.percent > 0 {
        "🔋 Батарея: "@ + decimal(s.percent as nat) + "%"@
    } else {
        "🔋 Батарея: недоступна"@
    }
}

/// The microphone line of the menu.
pub open spec fn mic_menu_text(s: TrayState) -> Seq<char> {
    if s.muted {
        "🔇 Микрофон: выкл"@
    } else {
        "🎙️ Микрофон: вкл"@
    }
}

/// The menu line that turns TapMute on or off.
pub open spec fn toggle_menu_text(s: TrayState) -> Seq<char> {
    if s.enabled {
        "⏸️ Выключить TapMute"@
    } else {
        "▶️ Включить TapMute"@
    }
}

/// The microphone's state in the tooltip.
pub open spec fn mic_status_text(s: TrayState) -> Seq<char> {
    if s.muted {
        "🔇 Выключен"@
    } else {
        "🎙️ Включён"@
    }
}

/// The tooltip of the tray icon.
pub open spec fn tooltip_text(s: TrayState) -> Seq<char> {
    let middle = if s.charging {
        "⚡ Заряжается: "@ + decimal(s.percent as nat) + "%"@
    } else if s.percent > 0 {
        "🔋 Батарея: "@ + decimal(s.percent as nat) + "%"@
    } else {
        "🎧 BT статус недоступен"@
    };
    "TapMute Discord BT\n"@ + middle + "\n🎤 Микрофон: "@ + mic_status_text(s)
}

/// A new battery level and charging flag: when either changed, the
/// tooltip, the icon and the menu are redrawn.
pub open spec fn battery_update(s: TrayState, percent: u8, charging: bool) -> (TrayState, TrayRefresh) {
    if s.percent != percent || s.charging != charging {
        (
            TrayState { percent, charging, ..s },
            TrayRefresh { tooltip: true, icon: true, menu: true },
        )
    } else {
        (s, no_refresh())
    }
}

/// A new microphone state: when it changed, the tooltip and the menu are
/// redrawn.
pub open spec fn mute_update(s: TrayState, muted: bool) -> (TrayState, TrayRefresh) {
    if s.muted != muted {
        (TrayState { muted, ..s }, TrayRefresh { tooltip: true, icon: false, menu: true })
    } else {
        (s, no_refresh())
    }
}

/// A new enabled flag: when it changed, the menu is redrawn.
pub open spec fn enabled_update(s: TrayState, enabled: bool) -> (TrayState, TrayRefresh) {
    if s.enabled != enabled {
        (TrayState { enabled, ..s }, TrayRefresh { tooltip: false, icon: false, menu: true })
    } else {
        (s, no_refresh())
    }
}

impl WindowsTray {
    /// The tray as created: no battery level, not charging, microphone on,
    /// TapMute enabled.
    pub fn new() -> (t: WindowsTray)
        ensures
            t@ == (TrayState { percent: 0, charging: false, muted: false, enabled: true }),
    {
        WindowsTray { last_percent: 0, last_charging: false, last_muted: false, enabled: true }
    }

    /// Takes a new battery level and charging flag; when either changed,
    /// the tooltip, the icon and the menu are redrawn.
    pub fn update_battery(&mut self, percent: u8, charging: bool) -> (r: TrayRefresh)
        ensures
            (final(self)@, r) == battery_update(old(self)@, percent, charging),
    {
        if self.last_percent != percent || self.last_charging != charging {
            self.last_percent = percent;
            self.last_charging = charging;
            TrayRefresh { tooltip: true, icon: true, menu: true }
        } else {
            TrayRefresh::none()
        }
    }

    /// Takes the microphone's state; when it changed, the tooltip and the
    /// menu are redrawn.
    pub fn update_mute(&mut self, muted: bool) -> (r: TrayRefresh)
        ensures
            (final(self)@, r) == mute_update(old(self)@, muted),
    {
        if self.last_muted != muted {
            self.last_muted = muted;
            TrayRefresh { tooltip: true, icon: false, menu: true }
        } else {
            TrayRefresh::none()
        }
    }

    /// Takes whether TapMute is enabled; when it changed, the menu is
    /// redrawn.
    pub fn set_enabled(&mut self, enabled: bool) -> (r: TrayRefresh)
        ensures
            (final(self)@, r) == enabled_update(old(self)@, enabled),
    {
        if self.enabled != enabled {
            self.enabled = enabled;
            TrayRefresh { tooltip: false, icon: false, menu: true }
        } else {
            TrayRefresh::none()
        }
    }

    /// Events of the tray are taken on threads of their own; there is
    /// nothing to poll.
    pub fn poll(&self) {
    }

    /// The battery level the icon is drawn for.
    pub fn percent(&self) -> (r: u8)
        ensures
            r == self@.percent,
    {
        self.last_percent
    }

    /// Whether the icon is drawn as charging.
    pub fn charging(&self) -> (r: bool)
        ensures
            r == self@.charging,
    {
        self.last_charging
    }

    /// Whether the icon shows the microphone as muted.
    pub fn muted(&self) -> (r: bool)
        ensures
            r == self@.muted,
    {
        self.last_muted
    }

    /// Whether the menu shows TapMute as enabled.
    pub fn enabled(&self) -> (r: bool)
        ensures
            r == self@.enabled,
    {
        self.enabled
    }

    /// The battery line of the menu.
    pub fn battery_menu_text(&self) -> (r: String)
        ensures
            r@ == battery_menu_text(self@),
    {
        if self.last_charging {
            let mut t = String::from_str("⚡ Заряд: ");
            push_decimal(&mut t, self.last_percent);
            t.append("%");
            t
        } else if self.last_percent > 0 {
            let mut t = String::from_str("🔋 Батарея: ");
            push_decimal(&mut t, self.last_percent);
            t.append("%");
            t
        } else {
            String::from_str("🔋 Батарея: недоступна")
        }
    }

    /// The microphone line of the menu.
    pub fn mic_menu_text(&self) -> (r: &'static str)
        ensures
            r@ == mic_menu_text(self@),
    {
        if self.last_muted {
            "🔇 Микрофон: выкл"
        } else {
            "🎙️ Микрофон: вкл"
        }
    }

    /// The menu line that turns TapMute on or off.
    pub fn toggle_menu_text(&self) -> (r: &'static str)
        ensures
            r@ == toggle_menu_text(self@),
    {
        if self.enabled {
            "⏸️ Выключить TapMute"
        } else {
            "▶️ Включить TapMute"
        }
    }

    /// The tooltip of the tray icon.
    pub fn tooltip_text(&self) -> (r: String)
        ensures
            r@ == tooltip_text(self@),
    {
        let mut t = String::from_str("TapMute Discord BT\n");
        if self.last_charging {
            t.append("⚡ Заряжается: ");
            push_decimal(&mut t, self.last_percent);
            t.append("%");
        } else if self.last_percent > 0 {
            t.append("🔋 Батарея: ");
            push_decimal(&mut t, self.last_percent);
            t.append("%");
        } else {
            t.append("🎧 BT статус недоступен");
        }
        t.append("\n🎤 Микрофон: ");
        if self.last_muted {
            t.append("🔇 Выключен");
        } else {
            t.append("🎙️ Включён");
        }
        t
    }

    /// The context menu: the battery and microphone lines, then the entry
    /// that turns TapMute on or off, then "Open", "Toggle mute" and "Quit",
    /// with separators between the groups.
    pub fn menu(&self) -> (r: Vec<MenuEntry>)
        ensures
            r@.len() == 9,
            r@[0] matches MenuEntry::Info(t) && t@ == battery_menu_text(self@),
            r@[1] matches MenuEntry::Info(t) && t@ == mic_menu_text(self@),
            r@[2] is Separator,
            r@[3] matches MenuEntry::Action(t, c) && t@ == toggle_menu_text(self@) && c
                == TrayCommand::ToggleMute,
            r@[4] is Separator,
            r@[5] matches MenuEntry::Action(t, c) && t@ == "Открыть"@ && c == TrayCommand::ShowWindow,
            r@[6] matches MenuEntry::Action(t, c) && t@ == "Переключить мьют"@ && c
                == TrayCommand::ToggleMute,
            r@[7] is Separator,
            r@[8] matches MenuEntry::Action(t, c) && t@ == "Выход"@ && c == TrayCommand::Quit,
    {
        let mut r: Vec<MenuEntry> = Vec::new();
        r.push(MenuEntry::Info(self.battery_menu_text()));
        r.push(MenuEntry::Info(String::from_str(self.mic_menu_text())));
        r.push(MenuEntry::Separator);
        r.push(MenuEntry::Action(String::from_str(self.toggle_menu_text()), TrayCommand::ToggleMute));
        r.push(MenuEntry::Separator);
        r.push(MenuEntry::Action(String::from_str("Открыть"), TrayCommand::ShowWindow));
        r.push(MenuEntry::Action(String::from_str("Переключить мьют"), TrayCommand::ToggleMute));
        r.push(MenuEntry::Separator);
        r.push(MenuEntry::Action(String::from_str("Выход"), TrayCommand::Quit));
        r
    }
}

/// An update takes the new values whatever they are, and a second update
/// with the same values redraws nothing and changes nothing.
pub proof fn lemma_repeated_update_is_idle(s: TrayState, percent: u8, charging: bool, muted: bool, enabled: bool)
    ensures
        battery_update(s, percent, charging).0 == (TrayState { percent, charging, ..s }),
        battery_update(battery_update(s, percent, charging).0, percent, charging) == (
        battery_update(s, percent, charging).0, no_refresh()),
        mute_update(s, muted).0 == (TrayState { muted, ..s }),
        mute_update(mute_update(s, muted).0, muted) == (mute_update(s, muted).0, no_refresh()),
        enabled_update(s, enabled).0 == (TrayState { enabled, ..s }),
        enabled_update(enabled_update(s, enabled).0, enabled) == (enabled_update(s, enabled).0, no_refresh()),
{
}

/// Each update changes only its own part of the state: the battery update
/// keeps the microphone and enabled flags, the others keep the battery.
pub proof fn lemma_updates_are_independent(s: TrayState, percent: u8, charging: bool, muted: bool, enabled: bool)
    ensures
        battery_update(s, percent, charging).0.muted == s.muted,
        battery_update(s, percent, charging).0.enabled == s.enabled,
        mute_update(s, muted).0.percent == s.percent,
        mute_update(s, muted).0.charging == s.charging,
        mute_update(s, muted).0.enabled == s.enabled,
        enabled_update(s, enabled).0.percent == s.percent,
        enabled_update(s, enabled).0.charging == s.charging,
        enabled_update(s, enabled).0.muted == s.muted,
{
}

/// A redraw covers every part of the icon that shows a changed value: the
/// tooltip shows the battery, charging and mute; the icon shows the battery
/// and charging; the menu shows the battery, charging, mute and enabled
/// flags. Each update changes only what it is given.
pub proof fn lemma_refresh_covers_changes(
    s: TrayState,
    percent: u8,
    charging: bool,
    muted: bool,
    enabled: bool,
)
    ensures
        (s.percent != percent || s.charging != charging) ==> {
            let r = battery_update(s, percent, charging).1;
            r.tooltip && r.icon && r.menu
        },
        s.muted != muted ==> mute_update(s, muted).1.tooltip && mute_update(s, muted).1.menu,
        s.enabled != enabled ==> enabled_update(s, enabled).1.menu,
        !mute_update(s, muted).1.icon,
        !enabled_update(s, enabled).1.icon,
        !enabled_update(s, enabled).1.tooltip,
{
}

/// The microphone line of the menu, the TapMute line of the menu and the
/// tooltip's microphone part say "off" exactly when the microphone is muted
/// and TapMute is disabled respectively, whatever else the state holds.
pub proof fn lemma_texts_follow_flags(s: TrayState)
    ensures
        (mic_menu_text(s) == "🔇 Микрофон: выкл"@) <==> s.muted,
        (mic_menu_text(s) == "🎙️ Микрофон: вкл"@) <==> !s.muted,
        (toggle_menu_text(s) == "⏸️ Выключить TapMute"@) <==> s.enabled,
        (toggle_menu_text(s) == "▶️ Включить TapMute"@) <==> !s.enabled,
        ends_with(tooltip_text(s), "\n🎤 Микрофон: 🔇 Выключен"@) <==> s.muted,
        ends_with(tooltip_text(s), "\n🎤 Микрофон: 🎙️ Включён"@) <==> !s.muted,
{
    reveal_strlit("🔇 Микрофон: выкл");
    reveal_strlit("🎙️ Микрофон: вкл");
    reveal_strlit("⏸️ Выключить TapMute");
    reveal_strlit("▶️ Включить TapMute");
    reveal_strlit("🔇 Выключен");
    reveal_strlit("🎙️ Включён");
    reveal_strlit("\n🎤 Микрофон: ");
    reveal_strlit("\n🎤 Микрофон: 🔇 Выключен");
    reveal_strlit("\n🎤 Микрофон: 🎙️ Включён");
    assert("🔇 Микрофон: выкл"@[0] != "🎙️ Микрофон: вкл"@[0]);
    assert("⏸️ Выключить TapMute"@[0] != "▶️ Включить TapMute"@[0]);
    let t = tooltip_text(s);
    let off = "\n🎤 Микрофон: 🔇 Выключен"@;
    let on = "\n🎤 Микрофон: 🎙️ Включён"@;
    assert(off.len() == on.len());
    assert(off[14] != on[14]);
    assert("\n🎤 Микрофон: "@ + "🔇 Выключен"@ =~= off);
    assert("\n🎤 Микрофон: "@ + "🎙️ Включён"@ =~= on);
    if s.muted {
        assert(t.subrange(t.len() - off.len(), t.len() as int) =~= off);
    } else {
        assert(t.subrange(t.len() - on.len(), t.len() as int) =~= on);
    }
}

/// The battery line of the menu and the tooltip show the battery level as
/// its decimal number: after "⚡" while charging, after "🔋" otherwise when
/// there is a level.
pub proof fn lemma_texts_show_level(s: TrayState)
    ensures
        s.charging ==> shows_number(battery_menu_text(s), "⚡ Заряд: "@, "%"@, s.percent as nat),
        !s.charging && s.percent > 0 ==> shows_number(
            battery_menu_text(s),
            "🔋 Батарея: "@,
            "%"@,
            s.percent as nat,
        ),
        s.charging ==> shows_number(
            tooltip_text(s),
            "TapMute Discord BT\n"@ + "⚡ Заряжается: "@,
            "%"@ + "\n🎤 Микрофон: "@ + mic_status_text(s),
            s.percent as nat,
        ),
        !s.charging && s.percent > 0 ==> shows_number(
            tooltip_text(s),
            "TapMute Discord BT\n"@ + "🔋 Батарея: "@,
            "%"@ + "\n🎤 Микрофон: "@ + mic_status_text(s),
            s.percent as nat,
        ),
{
    let n = s.percent as nat;
    let tail = "%"@ + "\n🎤 Микрофон: "@ + mic_status_text(s);
    if s.charging {
        lemma_shows_decimal("⚡ Заряд: "@, n, "%"@);
        lemma_shows_decimal("TapMute Discord BT\n"@ + "⚡ Заряжается: "@, n, tail);
        assert(tooltip_text(s) =~= ("TapMute Discord BT\n"@ + "⚡ Заряжается: "@) + decimal(n) + tail);
    } else if s.percent > 0 {
        lemma_shows_decimal("🔋 Батарея: "@, n, "%"@);
        lemma_shows_decimal("TapMute Discord BT\n"@ + "🔋 Батарея: "@, n, tail);
        assert(tooltip_text(s) =~= ("TapMute Discord BT\n"@ + "🔋 Батарея: "@) + decimal(n) + tail);
    }
}

} // verus!
