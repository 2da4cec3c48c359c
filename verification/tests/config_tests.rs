use tapmute::config::{
    default_compact_mode, default_double_tap_ms, default_enabled, default_language, Config,
    Keybind, StoredConfig,
};

#[test]
fn keybind_all_lists_every_key_in_order() {
    assert_eq!(
        Keybind::all(),
        vec![
            Keybind::F13,
            Keybind::F14,
            Keybind::F15,
            Keybind::F16,
            Keybind::F17,
            Keybind::F18,
            Keybind::F19,
            Keybind::F20,
            Keybind::MediaPlayPause,
        ]
    );
}

#[test]
fn keybind_names() {
    let names: Vec<&str> = Keybind::all().iter().map(|k| k.as_str()).collect();
    assert_eq!(
        names,
        vec!["F13", "F14", "F15", "F16", "F17", "F18", "F19", "F20", "MediaPlayPause"]
    );
}

#[test]
fn keybind_name_round_trip() {
    for k in Keybind::all() {
        assert_eq!(Keybind::from_name(k.as_str()), Some(k));
    }
}

#[test]
fn keybind_unknown_names_are_rejected() {
    assert_eq!(Keybind::from_name("F21"), None);
    assert_eq!(Keybind::from_name("f13"), None);
    assert_eq!(Keybind::from_name(""), None);
    assert_eq!(Keybind::from_name("F1"), None);
    assert_eq!(Keybind::from_name("MediaPlayPause "), None);
}

#[test]
fn keybind_default_is_f20() {
    assert_eq!(Keybind::default(), Keybind::F20);
}

#[test]
fn default_field_values() {
    assert!(default_enabled());
    assert_eq!(default_double_tap_ms(), 400);
    assert!(default_compact_mode());
    assert_eq!(default_language(), "ru");
}

#[test]
fn config_default_values() {
    let c = Config::default();
    assert_eq!(c.keybind, Keybind::F20);
    assert!(c.enabled);
    assert_eq!(c.double_tap_ms, 400);
    assert!(!c.start_with_os);
    assert!(c.compact_mode);
    assert_eq!(c.language, "ru");
}

#[test]
fn config_clone_keeps_fields() {
    let c = Config::from_fields(Some(Keybind::F15), Some(false), Some(650), Some(true), Some(false), Some("en".to_string()));
    let d = c.clone();
    assert_eq!(d.keybind, Keybind::F15);
    assert!(!d.enabled);
    assert_eq!(d.double_tap_ms, 650);
    assert!(d.start_with_os);
    assert!(!d.compact_mode);
    assert_eq!(d.language, "en");
}

#[test]
fn config_from_no_fields_is_default() {
    let c = Config::from_fields(None, None, None, None, None, None);
    assert_eq!(c.keybind, Keybind::F20);
    assert!(c.enabled);
    assert_eq!(c.double_tap_ms, 400);
    assert!(!c.start_with_os);
    assert!(c.compact_mode);
    assert_eq!(c.language, "ru");
}

#[test]
fn config_from_some_fields_fills_the_rest() {
    let c = Config::from_fields(Some(Keybind::MediaPlayPause), None, Some(250), None, Some(false), None);
    assert_eq!(c.keybind, Keybind::MediaPlayPause);
    assert!(c.enabled);
    assert_eq!(c.double_tap_ms, 250);
    assert!(!c.start_with_os);
    assert!(!c.compact_mode);
    assert_eq!(c.language, "ru");
}

#[test]
fn config_load_missing_file_creates_default() {
    let r = Config::load_from(StoredConfig::Missing);
    assert!(r.create_file);
    assert_eq!(r.config.keybind, Keybind::F20);
    assert_eq!(r.config.double_tap_ms, 400);
}

#[test]
fn config_load_unreadable_or_malformed_uses_default() {
    for stored in [StoredConfig::Unreadable, StoredConfig::Malformed] {
        let r = Config::load_from(stored);
        assert!(!r.create_file);
        assert_eq!(r.config.keybind, Keybind::F20);
        assert!(r.config.enabled);
        assert_eq!(r.config.double_tap_ms, 400);
        assert!(r.config.compact_mode);
        assert_eq!(r.config.language, "ru");
    }
}

#[test]
fn config_load_parsed_file_is_kept() {
    let c = Config::from_fields(Some(Keybind::F13), Some(false), Some(800), Some(true), Some(false), Some("en".to_string()));
    let r = Config::load_from(StoredConfig::Parsed(c));
    assert!(!r.create_file);
    assert_eq!(r.config.keybind, Keybind::F13);
    assert!(!r.config.enabled);
    assert_eq!(r.config.double_tap_ms, 800);
    assert!(r.config.start_with_os);
    assert!(!r.config.compact_mode);
    assert_eq!(r.config.language, "en");
}

#[test]
fn config_from_file_fields_reads_keybind_names() {
    let c = Config::from_file_fields(Some("F17".to_string()), None, Some(300), None, None, None).unwrap();
    assert_eq!(c.keybind, Keybind::F17);
    assert_eq!(c.double_tap_ms, 300);
    assert!(c.enabled);
    let d = Config::from_file_fields(None, None, None, None, None, None).unwrap();
    assert_eq!(d.keybind, Keybind::F20);
    assert_eq!(d.language, "ru");
}

#[test]
fn config_from_file_fields_rejects_unknown_keybind() {
    assert!(Config::from_file_fields(Some("F21".to_string()), Some(true), None, None, None, None).is_none());
    assert!(Config::from_file_fields(Some(String::new()), None, None, None, None, None).is_none());
}
