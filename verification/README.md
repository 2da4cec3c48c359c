# tapmute

TapMute turns a double tap of a Bluetooth headset's Play/Pause key into a
press of the keybind that toggles Discord's microphone mute. A single tap
still reaches the system; a second tap within the double-tap timeout is
swallowed.

Layout:

- `src/` — the library, verified with Verus:
  - `config.rs`: keybinds and their names in `tapmute.toml`, field defaults,
    the choice of configuration after reading the file;
  - `media_hook.rs`: the double-tap detector of the media-key hook;
  - `mute_handler.rs`: the mute sender with its 150 ms debounce;
  - `bluetooth.rs`: Bluetooth audio detection, and the BLE battery scan as a
    state machine;
  - `tray/`: tray commands, the state of the tray icon, its tooltip and menu;
  - `gui/`: the state of the window and its labels;
  - `text.rs`: text comparison and decimal numbers.
- `tests/` — tests of the library.
- `app/` — the program: configuration file I/O, the Windows keyboard hook,
  key presses, Bluetooth and BLE access, the tray icon and the window.
