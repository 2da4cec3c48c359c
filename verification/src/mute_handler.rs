//! The mute sender: decides, with a debounce of 150 ms, when the keybind
//! that toggles Discord's mute is to be pressed.

use vstd::prelude::*;
use vstd::string::StringExecFns;

use crate::config::{keybind_name, lemma_named_keybind, named_keybind, Config, Keybind};
use crate::media_hook::{
    after_press, elapsed_ns, press_outcome, HookState, HookVerdict, NANOS_PER_MILLI,
};

verus! {

/// Shortest time between two presses of the keybind, in milliseconds.
pub const DEBOUNCE_MS: u64 = 150;

/// State of the mute sender.
pub struct MuteHandler {
    last_toggle_ns: Option<u64>,
    debounce_ms: u64,
    keybind_str: String,
}

/// The mute sender's state, as the contracts speak of it.
pub struct MuteState {
    /// When the keybind was last pressed, on a monotonic clock.
    pub last_toggle_ns: Option<u64>,
    pub debounce_ms: u64,
    /// Name of the keybind chosen in the settings.
    pub keybind: Seq<char>,
}

impl View for MuteHandler {
    type V = MuteState;

    closed spec fn view(&self) -> MuteState {
        MuteState {
            last_toggle_ns: self.last_toggle_ns,
            debounce_ms: self.debounce_ms,
            keybind: self.keybind_str@,
        }
    }
}

/// Whether a request at `now` comes too soon after the last press.
pub open spec fn is_bounce(s: MuteState, now: u64) -> bool {
    match s.last_toggle_ns {
        Some(t) => elapsed_ns(now, t) < s.debounce_ms * NANOS_PER_MILLI,
        None => false,
    }
}

/// The state after a request at `now`.
pub open spec fn after_request(s: MuteState, now: u64) -> MuteState {
    if is_bounce(s, now) {
        s
    } else {
        MuteState { last_toggle_ns: Some(now), ..s }
    }
}

/// The key sent on mute: the keybind set in the settings, or `fallback`
/// where the name set there names no keybind.
pub open spec fn mute_key(s: MuteState, fallback: Keybind) -> Keybind {
    match named_keybind(s.keybind) {
        Some(k) => k,
        None => fallback,
    }
}

/// The key to press for a request at `now`, if any; `fallback` is the
/// keybind that the request names.
pub open spec fn request_key(s: MuteState, now: u64, fallback: Keybind) -> Option<Keybind> {
    if is_bounce(s, now) {
        None
    } else {
        Some(mute_key(s, fallback))
    }
}

/// Times of the requests among `reqs`, made one after the other from state
/// `s`, that press a key.
pub open spec fn sent_times(s: MuteState, reqs: Seq<u64>) -> Seq<u64>
    decreases reqs.len(),
{
    if reqs.len() == 0 {
        Seq::empty()
    } else {
        let rest = sent_times(after_request(s, reqs[0]), reqs.drop_first());
        if is_bounce(s, reqs[0]) {
            rest
        } else {
            seq![reqs[0]] + rest
        }
    }
}

impl MuteHandler {
    /// A sender that has pressed nothing yet, with the 150 ms debounce and
    /// `F20` as keybind.
    pub fn new() -> (h: MuteHandler)
        ensures
            h@.last_toggle_ns is None,
            h@.debounce_ms == DEBOUNCE_MS,
            h@.keybind == "F20"@,
    {
        MuteHandler {
            last_toggle_ns: None,
            debounce_ms: DEBOUNCE_MS,
            keybind_str: String::from_str("F20"),
        }
    }

    /// Sets the keybind that is sent on mute.
    pub fn set_keybind(&mut self, keybind: &str)
        ensures
            final(self)@ == (MuteState { keybind: keybind@, ..old(self)@ }),
    {
        self.keybind_str = String::from_str(keybind);
    }

    /// A request, at `now_ns` on a monotonic clock, to toggle the mute.
    /// Within 150 ms of the last press the request is ignored; otherwise the
    /// time is recorded and the keybind set with
    /// [`MuteHandler::set_keybind`] is returned, to be pressed (`keybind`
    /// where the name set there names no keybind).
    pub fn do_mute(&mut self, keybind: &Keybind, now_ns: u64) -> (r: Option<Keybind>)
        ensures
            final(self)@ == after_request(old(self)@, now_ns),
            r == request_key(old(self)@, now_ns, *keybind),
    {
        if let Some(last) = self.last_toggle_ns {
            let elapsed: u64 = now_ns.saturating_sub(last);
            if (elapsed as u128) < (self.debounce_ms as u128) * (NANOS_PER_MILLI as u128) {
                return None;
            }
        }
        self.last_toggle_ns = Some(now_ns);
        let key: Keybind = match Keybind::from_name(self.keybind_str.as_str()) {
            Some(k) => k,
            None => *keybind,
        };
        Some(key)
    }

    /// Name of the keybind set with [`MuteHandler::set_keybind`].
    pub fn keybind_str(&self) -> (r: &str)
        ensures
            r@ == self@.keybind,
    {
        self.keybind_str.as_str()
    }

    /// A test press from the settings; it presses the same key as
    /// [`MuteHandler::do_mute`] and goes through the same debounce.
    pub fn test_mute(&mut self, keybind: &Keybind, now_ns: u64) -> (r: Option<Keybind>)
        ensures
            final(self)@ == after_request(old(self)@, now_ns),
            r == request_key(old(self)@, now_ns, *keybind),
    {
        self.do_mute(keybind, now_ns)
    }
}

/// The key sent on mute is the keybind last set in the settings, whatever
/// keybind a request names.
pub proof fn lemma_set_keybind_decides_key(s: MuteState, k: Keybind, fallback: Keybind)
    requires
        s.keybind == keybind_name(k),
    ensures
        mute_key(s, fallback) == k,
{
    lemma_named_keybind(k);
}

/// Any two presses made by the mute sender, over any sequence of requests,
/// are at least the debounce apart, and the first comes at least the
/// debounce after the press the sender last made.
pub proof fn lemma_presses_are_debounced(s: MuteState, reqs: Seq<u64>)
    requires
        s.debounce_ms > 0,
    ensures
        forall|i: int, j: int|
            0 <= i < j < sent_times(s, reqs).len() ==> sent_times(s, reqs)[j] >= sent_times(s, reqs)[i]
                + s.debounce_ms * NANOS_PER_MILLI,
        s.last_toggle_ns matches Some(t) ==> forall|i: int|
            0 <= i < sent_times(s, reqs).len() ==> #[trigger] sent_times(s, reqs)[i] >= t
                + s.debounce_ms * NANOS_PER_MILLI,
    decreases reqs.len(),
{
    if reqs.len() > 0 {
        let now = reqs[0];
        let next = after_request(s, now);
        lemma_presses_are_debounced(next, reqs.drop_first());
        let rest = sent_times(next, reqs.drop_first());
        let sent = sent_times(s, reqs);
        if !is_bounce(s, now) {
            assert(sent == seq![now] + rest);
            assert forall|i: int, j: int| 0 <= i < j < sent.len() implies sent[j] >= sent[i]
                + s.debounce_ms * NANOS_PER_MILLI by {
                if i > 0 {
                    assert(sent[i] == rest[i - 1]);
                    assert(sent[j] == rest[j - 1]);
                } else {
                    assert(sent[j] == rest[j - 1]);
                }
            }
            if let Some(t) = s.last_toggle_ns {
                assert forall|i: int| 0 <= i < sent.len() implies #[trigger] sent[i] >= t
                    + s.debounce_ms * NANOS_PER_MILLI by {
                    if i > 0 {
                        assert(sent[i] == rest[i - 1]);
                    }
                }
            }
        }
    }
}

/// A double tap reported by the hook, at `now_ns`: when the configuration
/// has TapMute enabled, a request to the mute sender; otherwise nothing.
pub fn on_mute_signal(config: &Config, handler: &mut MuteHandler, now_ns: u64) -> (r: Option<Keybind>)
    ensures
        config.enabled ==> final(handler)@ == after_request(old(handler)@, now_ns) && r == request_key(
            old(handler)@,
            now_ns,
            config.keybind,
        ),
        !config.enabled ==> final(handler)@ == old(handler)@ && r is None,
{
    if config.enabled {
        handler.do_mute(&config.keybind, now_ns)
    } else {
        None
    }
}

/// Two requests less than the debounce apart press the keybind once: the
/// second is ignored and leaves the state as the first left it.
pub proof fn lemma_bounce_is_ignored(s: MuteState, t1: u64, t2: u64, k1: Keybind, k2: Keybind)
    requires
        !is_bounce(s, t1),
        t1 <= t2,
        t2 - t1 < s.debounce_ms * NANOS_PER_MILLI,
    ensures
        request_key(s, t1, k1) == Some(mute_key(s, k1)),
        request_key(after_request(s, t1), t2, k2) is None,
        after_request(after_request(s, t1), t2) == after_request(s, t1),
{
}

/// A request that comes when the debounce has run out since the last press
/// presses the keybind and records its time.
pub proof fn lemma_request_after_debounce_is_sent(s: MuteState, t1: u64, t2: u64, k: Keybind)
    requires
        s.last_toggle_ns == Some(t1),
        t1 <= t2,
        t2 - t1 >= s.debounce_ms * NANOS_PER_MILLI,
    ensures
        request_key(s, t2, k) == Some(mute_key(s, k)),
        after_request(s, t2).last_toggle_ns == Some(t2),
{
}

/// A request changes nothing but the time of the last press; the keybind
/// chosen in the settings and the debounce stay.
pub proof fn lemma_request_keeps_settings(s: MuteState, now: u64)
    ensures
        after_request(s, now).keybind == s.keybind,
        after_request(s, now).debounce_ms == s.debounce_ms,
{
}

/// From the key to Discord: when the hook sees a second press of the media
/// key within the double-tap timeout of the first, with TapMute enabled, and
/// the configuration has TapMute enabled and no keybind was pressed during
/// the debounce before, the press is swallowed and the configured keybind is
/// pressed.
pub proof fn lemma_double_tap_presses_keybind(
    hook: HookState,
    handler: MuteState,
    config: Config,
    t1: u64,
    t2: u64,
)
    requires
        hook.last_press_ns is None,
        hook.enabled,
        config.enabled,
        t1 <= t2,
        t2 - t1 < hook.double_tap_ms * NANOS_PER_MILLI,
        !is_bounce(handler, t2),
        handler.keybind == keybind_name(config.keybind),
    ensures
        press_outcome(after_press(hook, t1), t2).verdict == HookVerdict::Suppress,
        press_outcome(after_press(hook, t1), t2).send_mute,
        request_key(handler, t2, config.keybind) == Some(config.keybind),
{
    lemma_named_keybind(config.keybind);
}

} // verus!
