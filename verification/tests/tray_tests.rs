use tapmute::tray::windows::{MenuEntry, TrayRefresh, WindowsTray};
use tapmute::tray::TrayCommand;

const ALL: TrayRefresh = TrayRefresh { tooltip: true, icon: true, menu: true };
const NONE: TrayRefresh = TrayRefresh { tooltip: false, icon: false, menu: false };

#[test]
fn tray_starts_without_battery() {
    let t = WindowsTray::new();
    assert_eq!(t.percent(), 0);
    assert!(!t.charging());
    assert!(!t.muted());
    assert!(t.enabled());
    assert_eq!(t.battery_menu_text(), "🔋 Батарея: недоступна");
    assert_eq!(t.mic_menu_text(), "🎙️ Микрофон: вкл");
    assert_eq!(t.toggle_menu_text(), "⏸️ Выключить TapMute");
    assert_eq!(
        t.tooltip_text(),
        "TapMute Discord BT\n🎧 BT статус недоступен\n🎤 Микрофон: 🎙️ Включён"
    );
}

#[test]
fn tray_battery_update_redraws_only_on_change() {
    let mut t = WindowsTray::new();
    assert_eq!(t.update_battery(0, false), NONE);
    assert_eq!(t.update_battery(64, false), ALL);
    assert_eq!(t.update_battery(64, false), NONE);
    assert_eq!(t.update_battery(64, true), ALL);
    assert_eq!(t.percent(), 64);
    assert!(t.charging());
}

#[test]
fn tray_mute_and_enabled_updates() {
    let mut t = WindowsTray::new();
    assert_eq!(t.update_mute(true), TrayRefresh { tooltip: true, icon: false, menu: true });
    assert_eq!(t.update_mute(true), NONE);
    assert_eq!(t.set_enabled(false), TrayRefresh { tooltip: false, icon: false, menu: true });
    assert_eq!(t.set_enabled(false), NONE);
    assert_eq!(t.mic_menu_text(), "🔇 Микрофон: выкл");
    assert_eq!(t.toggle_menu_text(), "▶️ Включить TapMute");
    t.poll();
}

#[test]
fn tray_texts_with_battery() {
    let mut t = WindowsTray::new();
    t.update_battery(87, false);
    assert_eq!(t.battery_menu_text(), "🔋 Батарея: 87%");
    assert_eq!(
        t.tooltip_text(),
        "TapMute Discord BT\n🔋 Батарея: 87%\n🎤 Микрофон: 🎙️ Включён"
    );
    t.update_battery(5, true);
    t.update_mute(true);
    assert_eq!(t.battery_menu_text(), "⚡ Заряд: 5%");
    assert_eq!(
        t.tooltip_text(),
        "TapMute Discord BT\n⚡ Заряжается: 5%\n🎤 Микрофон: 🔇 Выключен"
    );
    t.update_battery(0, true);
    assert_eq!(t.battery_menu_text(), "⚡ Заряд: 0%");
}

#[test]
fn tray_menu_layout() {
    let mut t = WindowsTray::new();
    t.update_battery(100, false);
    let menu = t.menu();
    assert_eq!(menu.len(), 9);
    assert!(matches!(&menu[0], MenuEntry::Info(s) if s == "🔋 Батарея: 100%"));
    assert!(matches!(&menu[1], MenuEntry::Info(s) if s == "🎙️ Микрофон: вкл"));
    assert!(matches!(&menu[2], MenuEntry::Separator));
    assert!(matches!(&menu[3], MenuEntry::Action(s, TrayCommand::ToggleMute) if s == "⏸️ Выключить TapMute"));
    assert!(matches!(&menu[4], MenuEntry::Separator));
    assert!(matches!(&menu[5], MenuEntry::Action(s, TrayCommand::ShowWindow) if s == "Открыть"));
    assert!(matches!(&menu[6], MenuEntry::Action(s, TrayCommand::ToggleMute) if s == "Переключить мьют"));
    assert!(matches!(&menu[7], MenuEntry::Separator));
    assert!(matches!(&menu[8], MenuEntry::Action(s, TrayCommand::Quit) if s == "Выход"));
}

#[test]
fn tray_refresh_merge() {
    let a = TrayRefresh { tooltip: true, icon: false, menu: false };
    let b = TrayRefresh { tooltip: false, icon: false, menu: true };
    assert_eq!(a.merge(b), TrayRefresh { tooltip: true, icon: false, menu: true });
    assert_eq!(TrayRefresh::none(), NONE);
}
