//! The double-tap detector behind the global hook on the media Play/Pause key.
//!
//! A single press is let through to the system (music pauses) and its time
//! is remembered. While TapMute is enabled, a second press within the
//! double-tap timeout is swallowed and asks for Discord's mute to be toggled;
//! while it is disabled, every press is let through.

use vstd::prelude::*;

use crate::config::{Config, DEFAULT_DOUBLE_TAP_MS};

verus! {

/// Virtual-key code of the media Play/Pause key.
pub const VK_MEDIA_PLAY_PAUSE: u32 = 0xB3;

/// Window message of a key press.
pub const WM_KEYDOWN: u32 = 0x0100;

/// Window message of a key press while Alt is held.
pub const WM_SYSKEYDOWN: u32 = 0x0104;

/// Nanoseconds in a millisecond.
pub const NANOS_PER_MILLI: u64 = 1_000_000;

/// State of the detector: when the last single press happened (in
/// nanoseconds of a monotonic clock), whether TapMute is enabled, and the
/// double-tap timeout in milliseconds.
pub struct MediaHook {
    last_press_ns: Option<u64>,
    enabled: bool,
    double_tap_ms: u64,
}

/// The detector's state, as the contracts speak of it.
pub struct HookState {
    pub last_press_ns: Option<u64>,
    pub enabled: bool,
    pub double_tap_ms: u64,
}

impl View for MediaHook {
    type V = HookState;

    closed spec fn view(&self) -> HookState {
        HookState {
            last_press_ns: self.last_press_ns,
            enabled: self.enabled,
            double_tap_ms: self.double_tap_ms,
        }
    }
}

/// What becomes of the key event in the system.
#[derive(Debug, Clone, Copy, PartialEq, Eq, Structural)]
pub enum HookVerdict {
    /// The event goes on to the next hook and to the system.
    PassThrough,
    /// The event is swallowed.
    Suppress,
}

/// The detector's answer to one keyboard event.
#[derive(Debug, Clone, Copy, PartialEq, Eq, Structural)]
pub struct HookOutcome {
    pub verdict: HookVerdict,
    /// Whether Discord's mute is to be toggled.
    pub send_mute: bool,
}

/// Whether the event is a press of the media Play/Pause key that the hook
/// is allowed to look at.
pub open spec fn is_media_press(n_code: i32, vk_code: u32, message: u32) -> bool {
    &&& n_code >= 0
    &&& vk_code == VK_MEDIA_PLAY_PAUSE
    &&& (message == WM_KEYDOWN || message == WM_SYSKEYDOWN)
}

/// Time from `then` to `now`, zero where `now` is earlier.
pub open spec fn elapsed_ns(now: u64, then: u64) -> nat {
    if now >= then {
        (now - then) as nat
    } else {
        0
    }
}

/// Whether a press at `now` completes a double tap: TapMute is enabled and
/// the press comes within the timeout of a pending single press.
pub open spec fn is_double_tap(s: HookState, now: u64) -> bool {
    &&& s.enabled
    &&& match s.last_press_ns {
        Some(t) => elapsed_ns(now, t) < s.double_tap_ms * NANOS_PER_MILLI,
        None => false,
    }
}

/// The state after a press at `now`.
pub open spec fn after_press(s: HookState, now: u64) -> HookState {
    HookState {
        last_press_ns: if is_double_tap(s, now) { None } else { Some(now) },
        enabled: s.enabled,
        double_tap_ms: s.double_tap_ms,
    }
}

/// The answer to a press at `now`.
pub open spec fn press_outcome(s: HookState, now: u64) -> HookOutcome {
    if is_double_tap(s, now) {
        HookOutcome { verdict: HookVerdict::Suppress, send_mute: true }
    } else {
        HookOutcome { verdict: HookVerdict::PassThrough, send_mute: false }
    }
}

/// The answer to any event that is not a press of the media key.
pub open spec fn pass_through() -> HookOutcome {
    HookOutcome { verdict: HookVerdict::PassThrough, send_mute: false }
}

impl MediaHook {
    /// The detector before any configuration: no press seen, enabled, with
    /// the default timeout.
    pub fn new() -> (h: MediaHook)
        ensures
            h@.last_press_ns is None,
            h@.enabled,
            h@.double_tap_ms == DEFAULT_DOUBLE_TAP_MS,
    {
        MediaHook { last_press_ns: None, enabled: true, double_tap_ms: DEFAULT_DOUBLE_TAP_MS }
    }

    /// Whether double taps ask for the mute.
    pub fn enabled(&self) -> (r: bool)
        ensures
            r == self@.enabled,
    {
        self.enabled
    }

    /// The double-tap timeout, in milliseconds.
    pub fn double_tap_ms(&self) -> (r: u64)
        ensures
            r == self@.double_tap_ms,
    {
        self.double_tap_ms
    }
}

/// Takes `enabled` and the double-tap timeout from the configuration.
pub fn init(hook: &mut MediaHook, config: &Config)
    ensures
        final(hook)@.enabled == config.enabled,
        final(hook)@.double_tap_ms == config.double_tap_ms,
        final(hook)@.last_press_ns == old(hook)@.last_press_ns,
{
    hook.enabled = config.enabled;
    hook.double_tap_ms = config.double_tap_ms;
}

/// Turns the handling of double taps on or off.
pub fn set_enabled(hook: &mut MediaHook, enabled: bool)
    ensures
        final(hook)@ == (HookState { enabled, ..old(hook)@ }),
{
    hook.enabled = enabled;
}

/// Changes the double-tap timeout.
pub fn set_double_tap_ms(hook: &mut MediaHook, ms: u64)
    ensures
        final(hook)@ == (HookState { double_tap_ms: ms, ..old(hook)@ }),
{
    hook.double_tap_ms = ms;
}

/// Handles one low-level keyboard event. `n_code` is the hook code,
/// `vk_code` the virtual key, `message` the window message, and `now_ns` the
/// time of the event on a monotonic clock.
pub fn on_keyboard_event(
    hook: &mut MediaHook,
    n_code: i32,
    vk_code: u32,
    message: u32,
    now_ns: u64,
) -> (r: HookOutcome)
    ensures
        is_media_press(n_code, vk_code, message) ==> {
            &&& final(hook)@ == after_press(old(hook)@, now_ns)
            &&& r == press_outcome(old(hook)@, now_ns)
        },
        !is_media_press(n_code, vk_code, message) ==> {
            &&& final(hook)@ == old(hook)@
            &&& r == pass_through()
        },
{
    if n_code < 0 {
        return HookOutcome { verdict: HookVerdict::PassThrough, send_mute: false };
    }
    if vk_code == VK_MEDIA_PLAY_PAUSE && (message == WM_KEYDOWN || message == WM_SYSKEYDOWN) {
        if let Some(t) = hook.last_press_ns {
            let elapsed: u64 = now_ns.saturating_sub(t);
            if hook.enabled && (elapsed as u128) < (hook.double_tap_ms as u128) * (
            NANOS_PER_MILLI as u128) {
                hook.last_press_ns = None;
                return HookOutcome { verdict: HookVerdict::Suppress, send_mute: true };
            }
        }
        hook.last_press_ns = Some(now_ns);
    }
    HookOutcome { verdict: HookVerdict::PassThrough, send_mute: false }
}

/// A press with no single press pending is let through, asks for no mute,
/// and starts the double-tap timer.
pub proof fn lemma_first_press_passes(s: HookState, now: u64)
    requires
        s.last_press_ns is None,
    ensures
        press_outcome(s, now) == pass_through(),
        after_press(s, now).last_press_ns == Some(now),
{
}

/// With TapMute enabled, two presses, the second within the timeout of the
/// first, make a double tap: the first is let through, the second is
/// swallowed and asks for the mute, and no press is left pending.
pub proof fn lemma_double_tap(s: HookState, t1: u64, t2: u64)
    requires
        s.enabled,
        s.last_press_ns is None,
        t1 <= t2,
        t2 - t1 < s.double_tap_ms * NANOS_PER_MILLI,
    ensures
        press_outcome(s, t1) == pass_through(),
        press_outcome(after_press(s, t1), t2) == (HookOutcome {
            verdict: HookVerdict::Suppress,
            send_mute: true,
        }),
        after_press(after_press(s, t1), t2).last_press_ns is None,
{
}

/// A second press that comes when the timeout has run out is a new single
/// press: it is let through and restarts the timer.
pub proof fn lemma_slow_second_press(s: HookState, t1: u64, t2: u64)
    requires
        s.last_press_ns is None,
        t1 <= t2,
        t2 - t1 >= s.double_tap_ms * NANOS_PER_MILLI,
    ensures
        press_outcome(after_press(s, t1), t2) == pass_through(),
        after_press(after_press(s, t1), t2).last_press_ns == Some(t2),
{
}

/// A press right after a double tap is a single press again, however soon
/// it comes.
pub proof fn lemma_press_after_double_tap_passes(s: HookState, t1: u64, t2: u64, t3: u64)
    requires
        s.last_press_ns is None,
        t1 <= t2,
        t2 - t1 < s.double_tap_ms * NANOS_PER_MILLI,
    ensures
        press_outcome(after_press(after_press(s, t1), t2), t3) == pass_through(),
{
}

/// With TapMute disabled, double-tap handling is off: every press is let
/// through and no mute is asked for; the press is still remembered as a
/// single press, and the settings stay.
pub proof fn lemma_disabled_hook_passes_every_press(s: HookState, now: u64)
    requires
        !s.enabled,
    ensures
        press_outcome(s, now) == pass_through(),
        after_press(s, now).last_press_ns == Some(now),
        after_press(s, now).enabled == s.enabled,
        after_press(s, now).double_tap_ms == s.double_tap_ms,
{
}

/// The mute is asked for exactly when a press is swallowed.
pub proof fn lemma_mute_exactly_when_swallowed(s: HookState, now: u64)
    ensures
        press_outcome(s, now).send_mute <==> press_outcome(s, now).verdict == HookVerdict::Suppress,
{
}

/// The hook looks at key-downs of the Play/Pause key, with or without Alt,
/// and only when the hook code lets it: not at key-ups, other keys, or
/// negative hook codes.
pub proof fn lemma_media_press_events(n_code: i32, vk_code: u32, message: u32)
    ensures
        n_code >= 0 ==> is_media_press(n_code, VK_MEDIA_PLAY_PAUSE, WM_KEYDOWN),
        n_code >= 0 ==> is_media_press(n_code, VK_MEDIA_PLAY_PAUSE, WM_SYSKEYDOWN),
        n_code < 0 ==> !is_media_press(n_code, vk_code, message),
        vk_code != VK_MEDIA_PLAY_PAUSE ==> !is_media_press(n_code, vk_code, message),
        !is_media_press(n_code, VK_MEDIA_PLAY_PAUSE, 0x0101),
        !is_media_press(n_code, VK_MEDIA_PLAY_PAUSE, 0x0105),
{
}

} // verus!
