//! Debouncing of the global toggle hotkeys, which are polled once per UI
//! frame: a held key must not toggle again until a minimum time has passed
//! since the last toggle.
use vstd::prelude::*;

verus! {

/// Minimum time, in milliseconds, between two toggles by hotkey.
pub const RETRIGGER_MS: u64 = 200;

/// The time of the last toggle by hotkey, shared by all hotkeys, in
/// milliseconds on the caller's monotonic clock.
#[derive(Clone, Copy, Debug, PartialEq, Eq, Structural)]
pub struct HotkeyDebounce {
    pub last_trigger_ms: u64,
}

impl HotkeyDebounce {
    /// A debouncer that counts `now_ms` as the last toggle, so that a key
    /// held at start-up does not toggle at once.
    pub fn new(now_ms: u64) -> (r: HotkeyDebounce)
        ensures
            r.last_trigger_ms == now_ms,
    {
        HotkeyDebounce { last_trigger_ms: now_ms }
    }

    /// Decides whether a key seen in the state `pressed` at `now_ms` toggles
    /// its runner: it does when pressed and more than `RETRIGGER_MS` after
    /// the last toggle, which then becomes `now_ms`.
    pub fn poll(&mut self, pressed: bool, now_ms: u64) -> (fire: bool)
        ensures
            fire == (pressed && now_ms - old(self).last_trigger_ms > RETRIGGER_MS),
            final(self).last_trigger_ms == if fire {
                now_ms
            } else {
                old(self).last_trigger_ms
            },
    {
        if pressed && now_ms.saturating_sub(self.last_trigger_ms) > RETRIGGER_MS {
            self.last_trigger_ms = now_ms;
            true
        } else {
            false
        }
    }
}

} // verus!
