//! The hotkey chord: the static rule that fires the playback trigger.
//!
//! The chord is a conjunction evaluated on every relevant key-down event:
//! the trigger key goes down while at least one of two designated modifier
//! keys is held. No per-chord object exists at runtime; the host feeds key
//! events (or live modifier queries) to the functions here and dispatches a
//! playback attempt whenever they say the chord matched. Key-repeat is not
//! debounced: every matched key-down counts as one trigger.

use vstd::prelude::*;

verus! {

/// The keys the chord rule watches: the trigger key, and the two modifier
/// keys either of which arms the chord.
#[derive(Clone, Copy, PartialEq, Eq, Structural, Debug)]
pub enum WatchedKey {
    Trigger,
    LeftModifier,
    RightModifier,
}

/// One low-level keyboard notification for a watched key.
#[derive(Clone, Copy, PartialEq, Eq, Structural, Debug)]
pub enum KeyEvent {
    Press(WatchedKey),
    Release(WatchedKey),
}

/// Which modifier keys are currently held, as far as the events observed so
/// far say.
#[derive(Clone, Copy, PartialEq, Eq, Structural, Debug)]
pub struct ModifierState {
    pub left_held: bool,
    pub right_held: bool,
}

/// The chord rule: the trigger key going down at an instant when at least
/// one modifier key is held. Key-up events never match; they only update the
/// modifier state.
pub open spec fn chord_matches(e: KeyEvent, mods: ModifierState) -> bool {
    e == KeyEvent::Press(WatchedKey::Trigger) && (mods.left_held || mods.right_held)
}

/// The modifier state after one event is observed. Trigger-key events leave
/// it unchanged; modifier presses and releases set and clear the
/// corresponding flag.
pub open spec fn mods_after(mods: ModifierState, e: KeyEvent) -> ModifierState {
    match e {
        KeyEvent::Press(WatchedKey::LeftModifier) => ModifierState {
            left_held: true,
            right_held: mods.right_held,
        },
        KeyEvent::Release(WatchedKey::LeftModifier) => ModifierState {
            left_held: false,
            right_held: mods.right_held,
        },
        KeyEvent::Press(WatchedKey::RightModifier) => ModifierState {
            left_held: mods.left_held,
            right_held: true,
        },
        KeyEvent::Release(WatchedKey::RightModifier) => ModifierState {
            left_held: mods.left_held,
            right_held: false,
        },
        _ => mods,
    }
}

impl ModifierState {
    /// The state before any event: no modifier held.
    pub fn new() -> (m: ModifierState)
        ensures
            !m.left_held,
            !m.right_held,
    {
        ModifierState { left_held: false, right_held: false }
    }

    /// Observe one key event: update the held-modifier flags and say whether
    /// the event matched the chord at the instant it arrived.
    pub fn observe(&mut self, e: KeyEvent) -> (matched: bool)
        ensures
            *final(self) == mods_after(*old(self), e),
            matched == chord_matches(e, *old(self)),
    {
        let matched = match e {
            KeyEvent::Press(WatchedKey::Trigger) => self.left_held || self.right_held,
            KeyEvent::Press(WatchedKey::LeftModifier) => {
                self.left_held = true;
                false
            },
            KeyEvent::Release(WatchedKey::LeftModifier) => {
                self.left_held = false;
                false
            },
            KeyEvent::Press(WatchedKey::RightModifier) => {
                self.right_held = true;
                false
            },
            KeyEvent::Release(WatchedKey::RightModifier) => {
                self.right_held = false;
                false
            },
            KeyEvent::Release(WatchedKey::Trigger) => false,
        };
        matched
    }
}

/// The modifier predicate in its live-query form, for a host that asks the
/// operating system directly whether each modifier key is pressed at the
/// instant the trigger key goes down.
pub fn modifier_held(left_pressed: bool, right_pressed: bool) -> (armed: bool)
    ensures
        armed == (left_pressed || right_pressed),
{
    left_pressed || right_pressed
}

/// Key-repeat is not debounced: a trigger press leaves the modifier state
/// unchanged, so while a modifier stays held, every repeated trigger press
/// matches the chord again and causes one more playback attempt.
pub proof fn law_repeat_triggers_again(m: ModifierState)
    requires
        m.left_held || m.right_held,
    ensures
        chord_matches(KeyEvent::Press(WatchedKey::Trigger), m),
        mods_after(m, KeyEvent::Press(WatchedKey::Trigger)) == m,
{
}

} // verus!
