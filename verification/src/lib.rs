//! TapMute: double-tap a Bluetooth headset's Play/Pause key to toggle
//! Discord's microphone mute.
//!
//! The crate holds the verified decision logic of the application:
//! configuration defaults and the keybind names of the configuration file,
//! the double-tap detector of the media-key hook, the debounced mute sender,
//! the Bluetooth battery scan as a state machine, and the state of the tray
//! icon and of the window.

pub mod bluetooth;
pub mod config;
pub mod gui;
pub mod text;
pub mod tray;
pub mod media_hook;
pub mod mute_handler;
