//! Configuration of the application: the keybind that toggles Discord's mute,
//! the double-tap timeout, and the defaults of every field of the file.

use vstd::prelude::*;
use vstd::string::StringExecFns;

use crate::text::text_eq;

verus! {

/// Keys that can be sent to Discord to toggle the microphone.
#[derive(Debug, Clone, Copy, PartialEq, Eq, Structural)]
pub enum Keybind {
    F13,
    F14,
    F15,
    F16,
    F17,
    F18,
    F19,
    F20,
    MediaPlayPause,
}

/// The name under which a keybind is written in the configuration file.
pub open spec fn keybind_name(k: Keybind) -> Seq<char> {
    match k {
        Keybind::F13 => "F13"@,
        Keybind::F14 => "F14"@,
        Keybind::F15 => "F15"@,
        Keybind::F16 => "F16"@,
        Keybind::F17 => "F17"@,
        Keybind::F18 => "F18"@,
        Keybind::F19 => "F19"@,
        Keybind::F20 => "F20"@,
        Keybind::MediaPlayPause => "MediaPlayPause"@,
    }
}

/// The keybind written under `name` in the configuration file, if any.
pub open spec fn named_keybind(name: Seq<char>) -> Option<Keybind> {
    if name == keybind_name(Keybind::F13) {
        Some(Keybind::F13)
    } else if name == keybind_name(Keybind::F14) {
        Some(Keybind::F14)
    } else if name == keybind_name(Keybind::F15) {
        Some(Keybind::F15)
    } else if name == keybind_name(Keybind::F16) {
        Some(Keybind::F16)
    } else if name == keybind_name(Keybind::F17) {
        Some(Keybind::F17)
    } else if name == keybind_name(Keybind::F18) {
        Some(Keybind::F18)
    } else if name == keybind_name(Keybind::F19) {
        Some(Keybind::F19)
    } else if name == keybind_name(Keybind::F20) {
        Some(Keybind::F20)
    } else if name == keybind_name(Keybind::MediaPlayPause) {
        Some(Keybind::MediaPlayPause)
    } else {
        None
    }
}

/// Every keybind, in the order in which the settings list offers them.
pub open spec fn all_keybinds() -> Seq<Keybind> {
    seq![
        Keybind::F13,
        Keybind::F14,
        Keybind::F15,
        Keybind::F16,
        Keybind::F17,
        Keybind::F18,
        Keybind::F19,
        Keybind::F20,
        Keybind::MediaPlayPause,
    ]
}

impl Keybind {
    /// All available keybinds.
    pub fn all() -> (r: Vec<Keybind>)
        ensures
            r@ == all_keybinds(),
    {
        vec![
            Keybind::F13,
            Keybind::F14,
            Keybind::F15,
            Keybind::F16,
            Keybind::F17,
            Keybind::F18,
            Keybind::F19,
            Keybind::F20,
            Keybind::MediaPlayPause,
        ]
    }

    /// The keybind's name, as written in the configuration file.
    pub fn as_str(&self) -> (s: &'static str)
        ensures
            s@ == keybind_name(*self),
    {
        match self {
            Keybind::F13 => "F13",
            Keybind::F14 => "F14",
            Keybind::F15 => "F15",
            Keybind::F16 => "F16",
            Keybind::F17 => "F17",
            Keybind::F18 => "F18",
            Keybind::F19 => "F19",
            Keybind::F20 => "F20",
            Keybind::MediaPlayPause => "MediaPlayPause",
        }
    }

    /// The keybind written under the given name in the configuration file,
    /// if any.
    pub fn from_name(name: &str) -> (r: Option<Keybind>)
        ensures
            match r {
                Some(k) => keybind_name(k) == name@,
                None => forall|k: Keybind| keybind_name(k) != name@,
            },
            r == named_keybind(name@),
    {
        let all: Vec<Keybind> = Keybind::all();
        let mut i: usize = 0;
        while i < all.len()
            invariant
                all@ == all_keybinds(),
                i <= all.len(),
                forall|j: int| 0 <= j < i ==> keybind_name(#[trigger] all@[j]) != name@,
            decreases all.len() - i,
        {
            let k: Keybind = all[i];
            if text_eq(k.as_str(), name) {
                proof {
                    lemma_named_keybind(k);
                }
                return Some(k);
            }
            i = i + 1;
        }
        assert forall|k: Keybind| keybind_name(k) != name@ by {
            assert(all_keybinds().contains(k));
        }
        None
    }
}

impl Default for Keybind {
    /// `F20` is the keybind of a fresh configuration.
    fn default() -> (k: Self)
        ensures
            k == Keybind::F20,
    {
        Keybind::F20
    }
}

/// Main configuration of the application, stored in `tapmute.toml` next to
/// the executable.
#[derive(Debug)]
pub struct Config {
    pub keybind: Keybind,
    pub enabled: bool,
    pub double_tap_ms: u64,
    pub start_with_os: bool,
    pub compact_mode: bool,
    pub language: String,
}

impl Clone for Config {
    fn clone(&self) -> (r: Self)
        ensures
            r == *self,
    {
        Config {
            keybind: self.keybind,
            enabled: self.enabled,
            double_tap_ms: self.double_tap_ms,
            start_with_os: self.start_with_os,
            compact_mode: self.compact_mode,
            language: self.language.clone(),
        }
    }
}

/// Double-tap timeout of a fresh configuration, in milliseconds.
pub const DEFAULT_DOUBLE_TAP_MS: u64 = 400;

/// Whether TapMute is enabled when the file does not say.
pub fn default_enabled() -> (r: bool)
    ensures
        r,
{
    true
}

/// Double-tap timeout when the file does not say.
pub fn default_double_tap_ms() -> (r: u64)
    ensures
        r == DEFAULT_DOUBLE_TAP_MS,
{
    DEFAULT_DOUBLE_TAP_MS
}

/// Whether the compact window is used when the file does not say.
pub fn default_compact_mode() -> (r: bool)
    ensures
        r,
{
    true
}

/// Interface language when the file does not say.
pub fn default_language() -> (r: String)
    ensures
        r@ == "ru"@,
{
    String::from_str("ru")
}

/// Whether `c` is the configuration that a missing file yields.
pub open spec fn is_default_config(c: Config) -> bool {
    &&& c.keybind == Keybind::F20
    &&& c.enabled
    &&& c.double_tap_ms == DEFAULT_DOUBLE_TAP_MS
    &&& !c.start_with_os
    &&& c.compact_mode
    &&& c.language@ == "ru"@
}

impl Default for Config {
    fn default() -> (c: Self)
        ensures
            is_default_config(c),
    {
        Config {
            keybind: Keybind::default(),
            enabled: default_enabled(),
            double_tap_ms: default_double_tap_ms(),
            start_with_os: false,
            compact_mode: default_compact_mode(),
            language: default_language(),
        }
    }
}

/// What reading the configuration file gave.
pub enum StoredConfig {
    /// There is no file.
    Missing,
    /// The file exists but could not be read.
    Unreadable,
    /// The file was read but is not a valid configuration.
    Malformed,
    /// The file held this configuration.
    Parsed(Config),
}

/// The configuration to use, and whether a file holding it is to be created.
pub struct LoadedConfig {
    pub config: Config,
    pub create_file: bool,
}

impl Config {
    /// A configuration from the fields that the file holds; each field that
    /// the file leaves out takes its default.
    pub fn from_fields(
        keybind: Option<Keybind>,
        enabled: Option<bool>,
        double_tap_ms: Option<u64>,
        start_with_os: Option<bool>,
        compact_mode: Option<bool>,
        language: Option<String>,
    ) -> (c: Config)
        ensures
            c.keybind == (match keybind { Some(k) => k, None => Keybind::F20 }),
            c.enabled == (match enabled { Some(b) => b, None => true }),
            c.double_tap_ms == (match double_tap_ms { Some(ms) => ms, None => DEFAULT_DOUBLE_TAP_MS }),
            c.start_with_os == (match start_with_os { Some(b) => b, None => false }),
            c.compact_mode == (match compact_mode { Some(b) => b, None => true }),
            c.language@ == (match language { Some(l) => l@, None => "ru"@ }),
            (keybind is None && enabled is None && double_tap_ms is None && start_with_os is None
                && compact_mode is None && language is None) ==> is_default_config(c),
    {
        Config {
            keybind: match keybind {
                Some(k) => k,
                None => Keybind::default(),
            },
            enabled: match enabled {
                Some(b) => b,
                None => default_enabled(),
            },
            double_tap_ms: match double_tap_ms {
                Some(ms) => ms,
                None => default_double_tap_ms(),
            },
            start_with_os: match start_with_os {
                Some(b) => b,
                None => false,
            },
            compact_mode: match compact_mode {
                Some(b) => b,
                None => default_compact_mode(),
            },
            language: match language {
                Some(l) => l,
                None => default_language(),
            },
        }
    }

    /// A configuration from the fields of the file, the keybind given by its
    /// name. A file whose keybind name names no keybind is not a valid
    /// configuration; otherwise each field that the file leaves out takes its
    /// default.
    pub fn from_file_fields(
        keybind: Option<String>,
        enabled: Option<bool>,
        double_tap_ms: Option<u64>,
        start_with_os: Option<bool>,
        compact_mode: Option<bool>,
        language: Option<String>,
    ) -> (r: Option<Config>)
        ensures
            r is None <==> (keybind matches Some(n) && named_keybind(n@) is None),
            r matches Some(c) ==> {
                &&& c.keybind == (match keybind {
                    Some(n) => named_keybind(n@).unwrap(),
                    None => Keybind::F20,
                })
                &&& c.enabled == (match enabled { Some(b) => b, None => true })
                &&& c.double_tap_ms == (match double_tap_ms { Some(ms) => ms, None => DEFAULT_DOUBLE_TAP_MS })
                &&& c.start_with_os == (match start_with_os { Some(b) => b, None => false })
                &&& c.compact_mode == (match compact_mode { Some(b) => b, None => true })
                &&& c.language@ == (match language { Some(l) => l@, None => "ru"@ })
            },
    {
        let key: Option<Keybind> = match keybind {
            Some(name) => match Keybind::from_name(name.as_str()) {
                Some(k) => Some(k),
                None => {
                    return None;
                },
            },
            None => None,
        };
        Some(Config::from_fields(key, enabled, double_tap_ms, start_with_os, compact_mode, language))
    }

    /// The configuration to use after reading the file: the file's own when
    /// it held one, the default otherwise. A default file is to be created
    /// only where there was none.
    pub fn load_from(stored: StoredConfig) -> (r: LoadedConfig)
        ensures
            match stored {
                StoredConfig::Parsed(c) => r.config == c && !r.create_file,
                StoredConfig::Missing => is_default_config(r.config) && r.create_file,
                _ => is_default_config(r.config) && !r.create_file,
            },
    {
        match stored {
            StoredConfig::Parsed(c) => LoadedConfig { config: c, create_file: false },
            StoredConfig::Missing => LoadedConfig { config: Config::default(), create_file: true },
            _ => LoadedConfig { config: Config::default(), create_file: false },
        }
    }
}

/// A keybind's name leads back to the keybind, and to no other.
pub proof fn lemma_keybind_name_round_trip(k: Keybind, other: Keybind)
    ensures
        keybind_name(k) == keybind_name(other) <==> k == other,
{
    reveal_strlit("F13");
    reveal_strlit("F14");
    reveal_strlit("F15");
    reveal_strlit("F16");
    reveal_strlit("F17");
    reveal_strlit("F18");
    reveal_strlit("F19");
    reveal_strlit("F20");
    reveal_strlit("MediaPlayPause");
    if keybind_name(k) == keybind_name(other) {
        assert(keybind_name(k).len() == keybind_name(other).len());
        if keybind_name(k).len() == 3 {
            assert(keybind_name(k)[2] == keybind_name(other)[2]);
            assert(keybind_name(k)[1] == keybind_name(other)[1]);
        }
    }
}

/// A keybind's name names that keybind.
pub proof fn lemma_named_keybind(k: Keybind)
    ensures
        named_keybind(keybind_name(k)) == Some(k),
{
    lemma_keybind_name_round_trip(k, Keybind::F13);
    lemma_keybind_name_round_trip(k, Keybind::F14);
    lemma_keybind_name_round_trip(k, Keybind::F15);
    lemma_keybind_name_round_trip(k, Keybind::F16);
    lemma_keybind_name_round_trip(k, Keybind::F17);
    lemma_keybind_name_round_trip(k, Keybind::F18);
    lemma_keybind_name_round_trip(k, Keybind::F19);
    lemma_keybind_name_round_trip(k, Keybind::F20);
}

/// The list of keybinds holds every keybind exactly once.
pub proof fn lemma_all_keybinds_complete(k: Keybind)
    ensures
        all_keybinds().contains(k),
        forall|i: int, j: int|
            0 <= i < j < all_keybinds().len() ==> all_keybinds()[i] != all_keybinds()[j],
{
    assert(all_keybinds()[0] == Keybind::F13);
    assert(all_keybinds()[1] == Keybind::F14);
    assert(all_keybinds()[2] == Keybind::F15);
    assert(all_keybinds()[3] == Keybind::F16);
    assert(all_keybinds()[4] == Keybind::F17);
    assert(all_keybinds()[5] == Keybind::F18);
    assert(all_keybinds()[6] == Keybind::F19);
    assert(all_keybinds()[7] == Keybind::F20);
    assert(all_keybinds()[8] == Keybind::MediaPlayPause);
}

} // verus!
