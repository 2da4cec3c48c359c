use tapmute::config::Keybind;
use tapmute::config::Config;
use tapmute::mute_handler::{on_mute_signal, MuteHandler};

const MS: u64 = 1_000_000;

#[test]
fn mute_first_request_is_sent() {
    let mut h = MuteHandler::new();
    assert_eq!(h.do_mute(&Keybind::F20, 5 * MS), Some(Keybind::F20));
}

#[test]
fn mute_request_within_debounce_is_ignored() {
    let mut h = MuteHandler::new();
    h.set_keybind("F13");
    assert_eq!(h.do_mute(&Keybind::F13, 1_000 * MS), Some(Keybind::F13));
    assert_eq!(h.do_mute(&Keybind::F13, 1_149 * MS), None);
    // the ignored request did not move the time of the last press
    assert_eq!(h.do_mute(&Keybind::F13, 1_150 * MS), Some(Keybind::F13));
}

#[test]
fn mute_presses_the_keybind_set_in_the_settings() {
    let mut h = MuteHandler::new();
    // a fresh sender presses F20 whatever the request names
    assert_eq!(h.do_mute(&Keybind::F13, 0), Some(Keybind::F20));
    h.set_keybind("MediaPlayPause");
    assert_eq!(h.do_mute(&Keybind::F13, 200 * MS), Some(Keybind::MediaPlayPause));
    // a name that names no keybind leaves the request's own keybind
    h.set_keybind("F99");
    assert_eq!(h.do_mute(&Keybind::F16, 400 * MS), Some(Keybind::F16));
}

#[test]
fn mute_presses_are_debounced_over_a_sequence() {
    let mut h = MuteHandler::new();
    let mut sent: Vec<u64> = Vec::new();
    for ms in [0u64, 50, 100, 149, 150, 200, 299, 300, 301, 450, 451, 900] {
        if h.do_mute(&Keybind::F20, ms * MS).is_some() {
            sent.push(ms);
        }
    }
    assert_eq!(sent, vec![0, 150, 300, 450, 900]);
    for w in sent.windows(2) {
        assert!(w[1] - w[0] >= 150);
    }
}

#[test]
fn mute_debounce_boundary() {
    let mut h = MuteHandler::new();
    h.do_mute(&Keybind::F20, 0);
    assert_eq!(h.do_mute(&Keybind::F20, 150 * MS - 1), None);
    assert_eq!(h.do_mute(&Keybind::F20, 150 * MS), Some(Keybind::F20));
}

#[test]
fn mute_test_press_goes_through_the_debounce() {
    let mut h = MuteHandler::new();
    h.set_keybind("MediaPlayPause");
    assert_eq!(h.test_mute(&Keybind::MediaPlayPause, 10 * MS), Some(Keybind::MediaPlayPause));
    assert_eq!(h.test_mute(&Keybind::MediaPlayPause, 20 * MS), None);
    assert_eq!(h.do_mute(&Keybind::MediaPlayPause, 100 * MS), None);
}

#[test]
fn mute_keybind_setting() {
    let mut h = MuteHandler::new();
    assert_eq!(h.keybind_str(), "F20");
    h.set_keybind("F17");
    assert_eq!(h.keybind_str(), "F17");
}

#[test]
fn mute_signal_respects_enabled() {
    let mut h = MuteHandler::new();
    h.set_keybind("F19");
    let off = Config::from_fields(Some(Keybind::F19), Some(false), None, None, None, None);
    assert_eq!(on_mute_signal(&off, &mut h, 0), None);
    let on = Config::from_fields(Some(Keybind::F19), Some(true), None, None, None, None);
    // the disabled signal left no trace: the first enabled one is sent
    assert_eq!(on_mute_signal(&on, &mut h, 1), Some(Keybind::F19));
    assert_eq!(on_mute_signal(&on, &mut h, 2), None);
}
