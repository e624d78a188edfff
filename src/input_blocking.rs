//! The event engine: decides for each raw input event whether it passes
//! through or is suppressed, and updates the session accordingly.

use vstd::prelude::*;
use crate::app_state::{AppStateInner, StateModel};
use crate::utils::keycode::{key_char, keycode_to_char, BACKSPACE_KEYCODE, SPACE_KEYCODE};
use crate::utils::{passphrase_digest, verify_passphrase};

verus! {

/// A keyboard event as the engine sees it: the virtual keycode and the
/// modifier keys held.
#[derive(Clone, Copy, Debug, PartialEq, Eq)]
pub struct KeyInfo {
    pub keycode: i64,
    pub control: bool,
    pub command: bool,
    pub shift: bool,
}

/// The kinds of raw events the interception hook delivers.
#[derive(Clone, Copy, Debug, PartialEq, Eq)]
pub enum EventKind {
    KeyDown,
    KeyUp,
    MouseMoved,
    MouseButton,
    ScrollWheel,
    MouseDragged,
    /// The OS switched the hook off because a callback was too slow.
    TapDisabledByTimeout,
    /// The OS switched the hook off because input permission was withdrawn.
    TapDisabledByUserInput,
    Other,
}

/// The fixed modifier chord of both hotkeys: Control, Command and Shift.
pub open spec fn hotkey_chord(k: KeyInfo) -> bool {
    k.control && k.command && k.shift
}

/// Whether a buffer completes the stored passphrase.
pub open spec fn buffer_matches(s: StateModel) -> bool {
    s.passphrase_hash matches Some(h) && passphrase_digest(s.buffer) == h
}

/// The rule chain for one key event: the new session and whether the event
/// is suppressed.
pub open spec fn key_outcome(s: StateModel, k: KeyInfo, down: bool, now: u64) -> (StateModel, bool) {
    if hotkey_chord(k) && k.keycode == s.lock_keycode {
        (if down && !s.locked { s.with_locked(true, now) } else { s }, true)
    } else if hotkey_chord(k) && k.keycode == s.talk_keycode {
        (StateModel { talk_key_pressed: down, ..s }, true)
    } else if s.talk_key_pressed && k.keycode == SPACE_KEYCODE {
        (s, false)
    } else if !s.locked {
        (s.with_input_time(now), false)
    } else if !down {
        (s, true)
    } else if k.keycode == BACKSPACE_KEYCODE {
        (s.with_backspace().with_key_time(now), true)
    } else {
        match key_char(k.keycode, k.shift) {
            Some(c) => {
                let t = s.with_appended(c).with_key_time(now);
                if buffer_matches(t) {
                    (t.with_locked(false, now), true)
                } else {
                    (t, true)
                }
            },
            None => (s, true),
        }
    }
}

/// The outcome of any raw event.
pub open spec fn event_outcome(s: StateModel, kind: EventKind, k: KeyInfo, now: u64) -> (StateModel, bool) {
    match kind {
        EventKind::KeyDown => key_outcome(s, k, true, now),
        EventKind::KeyUp => key_outcome(s, k, false, now),
        EventKind::MouseMoved => (s.with_input_time(now), false),
        EventKind::MouseButton | EventKind::ScrollWheel | EventKind::MouseDragged => (
            s.with_input_time(now),
            s.locked,
        ),
        EventKind::TapDisabledByTimeout => (StateModel { reenable_requested: true, ..s }, false),
        EventKind::TapDisabledByUserInput => (
            StateModel {
                stop_requested: true,
                exit_requested: s.exit_requested || s.exit_on_permission_loss,
                ..s
            },
            false,
        ),
        EventKind::Other => (s, false),
    }
}

/// A key that, while locked, types its character into the buffer: not one of
/// the hotkeys, not the talk passthrough, not delete, and a printable key.
pub open spec fn plain_typing_key(s: StateModel, k: KeyInfo) -> bool {
    &&& !(hotkey_chord(k) && (k.keycode == s.lock_keycode || k.keycode == s.talk_keycode))
    &&& !(s.talk_key_pressed && k.keycode == SPACE_KEYCODE)
    &&& k.keycode != BACKSPACE_KEYCODE
    &&& key_char(k.keycode, k.shift) is Some
}

/// The characters a sequence of keys types, in order.
pub open spec fn typed_chars(keys: Seq<(KeyInfo, u64)>) -> Seq<char>
    decreases keys.len(),
{
    if keys.len() == 0 {
        Seq::empty()
    } else {
        typed_chars(keys.drop_last()).push(
            key_char(keys.last().0.keycode, keys.last().0.shift)->Some_0,
        )
    }
}

/// The session after a sequence of key-down events, each with its time.
pub open spec fn after_key_downs(s: StateModel, keys: Seq<(KeyInfo, u64)>) -> StateModel
    decreases keys.len(),
{
    if keys.len() == 0 {
        s
    } else {
        key_outcome(after_key_downs(s, keys.drop_last()), keys.last().0, true, keys.last().1).0
    }
}

/// Typing while locked appends each key's character to the buffer in order,
/// as long as no prefix of the typing completes the passphrase.
pub proof fn lemma_typing_appends(s: StateModel, keys: Seq<(KeyInfo, u64)>)
    requires
        s.inv(),
        s.locked,
        forall|i: int| 0 <= i < keys.len() ==> plain_typing_key(s, #[trigger] keys[i].0),
        forall|j: int|
            1 <= j <= keys.len() ==> !(s.passphrase_hash matches Some(h) && passphrase_digest(
                s.buffer + typed_chars(#[trigger] keys.take(j)),
            ) == h),
    ensures
        after_key_downs(s, keys).buffer == s.buffer + typed_chars(keys),
        after_key_downs(s, keys).locked,
        after_key_downs(s, keys).inv(),
        after_key_downs(s, keys).talk_key_pressed == s.talk_key_pressed,
        after_key_downs(s, keys).lock_keycode == s.lock_keycode,
        after_key_downs(s, keys).talk_keycode == s.talk_keycode,
        after_key_downs(s, keys).passphrase_hash == s.passphrase_hash,
    decreases keys.len(),
{
    if keys.len() == 0 {
        assert(s.buffer + typed_chars(keys) =~= s.buffer);
    } else {
        let prev = keys.drop_last();
        assert forall|i: int| 0 <= i < prev.len() implies plain_typing_key(s, #[trigger] prev[i].0) by {
            assert(prev[i] == keys[i]);
        }
        assert forall|j: int| 1 <= j <= prev.len() implies !(s.passphrase_hash matches Some(h)
            && passphrase_digest(s.buffer + typed_chars(#[trigger] prev.take(j))) == h) by {
            assert(prev.take(j) =~= keys.take(j));
        }
        lemma_typing_appends(s, prev);
        let r = after_key_downs(s, prev);
        let k = keys.last().0;
        assert(plain_typing_key(s, keys[keys.len() - 1].0));
        assert(keys.take(keys.len() as int) =~= keys);
        assert(r.buffer.push(key_char(k.keycode, k.shift)->Some_0) =~= s.buffer + typed_chars(keys));
    }
}

/// Delete while locked removes exactly the last typed character; on an
/// empty buffer it changes nothing. The event is suppressed.
pub proof fn lemma_backspace(s: StateModel, k: KeyInfo, now: u64)
    requires
        s.inv(),
        s.locked,
        k.keycode == BACKSPACE_KEYCODE,
        !(hotkey_chord(k) && (k.keycode == s.lock_keycode || k.keycode == s.talk_keycode)),
    ensures
        s.buffer.len() > 0 ==> key_outcome(s, k, true, now).0.buffer == s.buffer.drop_last(),
        s.buffer.len() == 0 ==> key_outcome(s, k, true, now).0.buffer == s.buffer,
        key_outcome(s, k, true, now).1,
{
}

/// The lock hotkey on a locked session changes nothing and is suppressed.
pub proof fn lemma_lock_hotkey_when_locked(s: StateModel, k: KeyInfo, down: bool, now: u64)
    requires
        s.locked,
        hotkey_chord(k),
        k.keycode == s.lock_keycode,
    ensures
        key_outcome(s, k, down, now) == (s, true),
{
}

/// While the talk hotkey is held, the space bar passes through untouched,
/// locked or not.
pub proof fn lemma_talk_passthrough(s: StateModel, k: KeyInfo, down: bool, now: u64)
    requires
        s.talk_key_pressed,
        k.keycode == SPACE_KEYCODE,
        !(hotkey_chord(k) && (k.keycode == s.lock_keycode || k.keycode == s.talk_keycode)),
    ensures
        key_outcome(s, k, down, now) == (s, false),
{
}

/// Handles a key event. Returns `true` when the event is to be suppressed.
pub fn handle_keyboard_event(state: &mut AppStateInner, key: KeyInfo, is_down: bool, now: u64) -> (blocked: bool)
    requires
        old(state)@.inv(),
    ensures
        (final(state)@, blocked) == key_outcome(old(state)@, key, is_down, now),
        final(state)@.inv(),
{
    let chord = key.control && key.command && key.shift;
    if chord && key.keycode == state.lock_keycode() {
        if is_down && !state.is_locked() {
            state.set_locked(true, now);
        }
        return true;
    }
    if chord && key.keycode == state.talk_keycode() {
        state.set_talk_key_pressed(is_down);
        return true;
    }
    if state.is_talk_key_pressed() && key.keycode == SPACE_KEYCODE {
        return false;
    }
    if !state.is_locked() {
        state.update_input_time(now);
        return false;
    }
    if !is_down {
        return true;
    }
    if key.keycode == BACKSPACE_KEYCODE {
        state.pop_from_buffer();
        state.update_key_time(now);
        return true;
    }
    match keycode_to_char(key.keycode, key.shift) {
        Some(c) => {
            state.append_to_buffer(c);
            state.update_key_time(now);
            if let Some(hash) = state.get_passphrase_hash() {
                let buffer = state.get_buffer();
                if verify_passphrase(buffer.as_str(), hash.as_str()) {
                    state.set_locked(false, now);
                }
            }
            true
        },
        None => true,
    }
}

/// Handles a pointer click or scroll while locked: refreshes the idle clock
/// and suppresses the event.
pub fn handle_mouse_event(state: &mut AppStateInner, now: u64) -> (blocked: bool)
    requires
        old(state)@.inv(),
    ensures
        final(state)@ == old(state)@.with_input_time(now),
        blocked,
        final(state)@.inv(),
{
    state.update_input_time(now);
    true
}

/// Handles one raw event from the interception hook. Returns `true` when the
/// event is to be suppressed.
pub fn handle_event(state: &mut AppStateInner, kind: EventKind, key: KeyInfo, now: u64) -> (blocked: bool)
    requires
        old(state)@.inv(),
    ensures
        (final(state)@, blocked) == event_outcome(old(state)@, kind, key, now),
        final(state)@.inv(),
{
    match kind {
        EventKind::KeyDown => handle_keyboard_event(state, key, true, now),
        EventKind::KeyUp => handle_keyboard_event(state, key, false, now),
        EventKind::MouseMoved => {
            state.update_input_time(now);
            false
        },
        EventKind::MouseButton | EventKind::ScrollWheel | EventKind::MouseDragged => {
            if state.is_locked() {
                handle_mouse_event(state, now)
            } else {
                state.update_input_time(now);
                false
            }
        },
        EventKind::TapDisabledByTimeout => {
            state.request_reenable_event_tap();
            false
        },
        EventKind::TapDisabledByUserInput => {
            state.request_stop_event_tap();
            if state.exits_on_permission_loss() {
                state.request_exit();
            }
            false
        },
        EventKind::Other => false,
    }
}

} // verus!
