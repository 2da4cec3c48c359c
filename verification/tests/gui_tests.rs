use tapmute::bluetooth::BluetoothState;
use tapmute::config::{Config, Keybind};
use tapmute::gui::{CommandEffect, LabelColor, Tab, TapMuteApp};
use tapmute::media_hook::MediaHook;
use tapmute::mute_handler::MuteHandler;
use tapmute::tray::windows::{TrayRefresh, WindowsTray};
use tapmute::tray::TrayCommand;

fn app() -> TapMuteApp {
    TapMuteApp::new(Config::default(), WindowsTray::new())
}

#[test]
fn tab_default_is_dashboard() {
    assert_eq!(Tab::default(), Tab::Dashboard);
}

#[test]
fn app_starts_clean() {
    let a = app();
    assert!(!a.needs_save);
    assert!(!a.bt_connected);
    assert_eq!(a.battery_percent, 0);
    assert!(!a.is_muted);
    assert_eq!(a.selected_tab, Tab::Dashboard);
    assert!(a.tray.is_some());
}

#[test]
fn app_bluetooth_state_reaches_tray() {
    let mut a = app();
    let r = a.on_bluetooth_state(BluetoothState { connected: true, battery_percent: 42 });
    assert_eq!(r, TrayRefresh { tooltip: true, icon: true, menu: true });
    assert!(a.bt_connected);
    assert_eq!(a.battery_percent, 42);
    let t = a.tray.as_ref().unwrap();
    assert_eq!(t.percent(), 42);
    assert!(!t.charging());
    let r = a.on_bluetooth_state(BluetoothState { connected: true, battery_percent: 42 });
    assert_eq!(r, TrayRefresh { tooltip: false, icon: false, menu: false });
}

#[test]
fn app_without_tray_redraws_nothing() {
    let mut a = app();
    a.tray = None;
    assert_eq!(a.toggle_mute(), TrayRefresh { tooltip: false, icon: false, menu: false });
    assert!(a.is_muted);
}

#[test]
fn app_tray_commands() {
    let mut a = app();
    assert_eq!(a.on_tray_command(TrayCommand::ShowWindow), Some(CommandEffect::ShowWindow));
    assert_eq!(a.on_tray_command(TrayCommand::Quit), Some(CommandEffect::Quit));
    assert_eq!(a.on_tray_command(TrayCommand::RefreshBattery), None);
    assert!(!a.is_muted);
    assert_eq!(
        a.on_tray_command(TrayCommand::ToggleMute),
        Some(CommandEffect::RedrawTray(TrayRefresh { tooltip: true, icon: false, menu: true }))
    );
    assert!(a.is_muted);
    assert!(a.tray.as_ref().unwrap().muted());
    a.on_tray_command(TrayCommand::ToggleMute);
    assert!(!a.is_muted);
    assert!(!a.tray.as_ref().unwrap().muted());
}

#[test]
fn app_compact_mode_buttons() {
    let mut a = app();
    assert!(a.config.compact_mode);
    assert!(a.toggle_compact());
    assert!(!a.config.compact_mode);
    assert!(a.needs_save);
    assert!(!a.toggle_compact());
    assert!(a.config.compact_mode);
    a.expand();
    assert!(!a.config.compact_mode);
}

#[test]
fn app_settings_mark_unsaved() {
    let mut a = app();
    a.select_keybind(Keybind::F20);
    assert!(!a.needs_save);
    a.select_keybind(Keybind::F16);
    assert!(a.needs_save);
    assert_eq!(a.config.keybind, Keybind::F16);

    let mut a = app();
    a.set_enabled_setting(false);
    assert!(a.needs_save);
    assert!(!a.config.enabled);

    let mut a = app();
    a.set_start_with_os(true);
    assert!(a.needs_save);

    let mut a = app();
    a.set_double_tap_ms(700);
    assert_eq!(a.config.double_tap_ms, 700);
    assert!(!a.needs_save);
    a.apply_double_tap();
    assert!(a.needs_save);
}

#[test]
fn app_save_updates_hook_and_sender() {
    let mut a = app();
    let mut hook = MediaHook::new();
    let mut handler = MuteHandler::new();
    a.select_keybind(Keybind::F14);
    a.set_enabled_setting(false);
    a.set_double_tap_ms(900);
    a.save_config(false, &mut hook, &mut handler);
    assert!(a.needs_save);
    assert!(!hook.enabled());
    assert_eq!(hook.double_tap_ms(), 900);
    assert_eq!(handler.keybind_str(), "F14");
    a.save_config(true, &mut hook, &mut handler);
    assert!(!a.needs_save);
}

#[test]
fn app_test_mute_presses_the_saved_keybind() {
    let mut a = app();
    let mut hook = MediaHook::new();
    let mut handler = MuteHandler::new();
    a.select_keybind(Keybind::F18);
    // not saved yet: the sender still has F20
    assert_eq!(a.test_mute(&mut handler, 1_000_000_000), Some(Keybind::F20));
    a.save_config(true, &mut hook, &mut handler);
    assert_eq!(a.test_mute(&mut handler, 2_000_000_000), Some(Keybind::F18));
    assert_eq!(a.test_mute(&mut handler, 2_050_000_000), None);
}

#[test]
fn app_battery_colors() {
    let mut a = app();
    for (p, c) in [
        (100u8, LabelColor::Green),
        (51, LabelColor::Green),
        (50, LabelColor::Yellow),
        (21, LabelColor::Yellow),
        (20, LabelColor::Red),
        (1, LabelColor::Red),
        (0, LabelColor::Gray),
    ] {
        a.battery_percent = p;
        assert_eq!(a.battery_color(), c);
    }
}

#[test]
fn app_battery_labels() {
    let mut a = app();
    assert_eq!(a.compact_battery_label().text, "❌ BT не подключён");
    assert_eq!(a.dashboard_battery_label().text, "BT не подключён");
    assert_eq!(a.status_label().text, "❌ BT не подключён");
    assert_eq!(a.status_label().color, LabelColor::Red);
    a.bt_connected = true;
    assert_eq!(a.compact_battery_label().text, "🔋 Батарея недоступна");
    assert_eq!(
        a.dashboard_battery_label().text,
        "Батарея недоступна (устройство не поддерживает GATT)"
    );
    assert_eq!(a.status_label().text, "🎧 BT подключён");
    a.battery_percent = 35;
    let l = a.compact_battery_label();
    assert_eq!(l.text, "🔋 35%");
    assert_eq!(l.color, LabelColor::Yellow);
    assert_eq!(a.dashboard_battery_label().text, "35%");
    assert_eq!(a.status_label().text, "🎧 BT подключён (35%)");
    assert_eq!(a.status_label().color, LabelColor::Green);
}

#[test]
fn app_mic_and_bt_labels() {
    let mut a = app();
    assert_eq!(a.compact_mic_label().text, "🎙️ Микрофон вкл");
    assert_eq!(a.dashboard_mic_label().text, "🎙️ Активен");
    assert_eq!(a.mute_button_text(), "🔇 Замьютить");
    assert_eq!(a.compact_bt_label().text, "❌ BT не подключено");
    assert_eq!(a.dashboard_bt_label().text, "❌ Не подключено");
    a.is_muted = true;
    a.bt_connected = true;
    assert_eq!(a.compact_mic_label().text, "🔇 Мьют");
    assert_eq!(a.compact_mic_label().color, LabelColor::Red);
    assert_eq!(a.dashboard_mic_label().text, "🔇 Мьют");
    assert_eq!(a.mute_button_text(), "🎙️ Размьютить");
    assert_eq!(a.compact_bt_label().text, "🎧 BT подключено");
    assert_eq!(a.dashboard_bt_label().color, LabelColor::Green);
}
