//! Decisions of the periodic supervisors (buffer reset, inactivity auto-lock,
//! safety auto-unlock, permission monitor), of the hotkey listener and of the
//! controller's lock and unlock commands. The caller runs the loops and
//! supplies the clock and the permission oracle's answer.

use vstd::prelude::*;
use crate::app_state::{AppStateInner, StateModel};
use crate::utils::{passphrase_digest, verify_passphrase};

verus! {

/// What the permission monitor observed on one check.
#[derive(Clone, Copy, Debug, PartialEq, Eq)]
pub enum PermissionChange {
    Unchanged,
    Lost,
    Restored,
}

/// The registered global shortcuts.
#[derive(Clone, Copy, Debug, PartialEq, Eq)]
pub enum HotkeyAction {
    Lock,
    Talk,
}

/// Errors of the controller's commands.
#[derive(Clone, Copy, Debug, PartialEq, Eq)]
pub enum ControlError {
    /// Input-interception permission is not currently granted.
    PermissionDenied,
}

impl ControlError {
    /// A sentence describing the error.
    pub fn message(&self) -> (r: String)
        ensures
            r@ == "input-interception permission is not granted"@,
    {
        String::from_str("input-interception permission is not granted")
    }
}

/// The buffer reset supervisor's step: discards a partly typed passphrase
/// after the idle timeout.
pub open spec fn buffer_reset_step(s: StateModel, now: u64) -> (StateModel, bool) {
    if !s.disabled && s.locked && s.buffer.len() > 0 && s.buffer_reset_due(now) {
        (s.with_buffer_cleared(), true)
    } else {
        (s, false)
    }
}

/// The inactivity supervisor's step: locks an idle, unlocked session, but
/// only while input permission is granted.
pub open spec fn auto_lock_step(s: StateModel, now: u64) -> (StateModel, bool) {
    if !s.disabled && s.has_permission && s.auto_lock_due(now) {
        (s.with_locked(true, now), true)
    } else {
        (s, false)
    }
}

/// The safety supervisor's step: forces the auto-unlock when it is due.
pub open spec fn auto_unlock_step(s: StateModel, now: u64) -> (StateModel, bool) {
    if !s.disabled && s.auto_unlock_due(now) {
        (s.after_auto_unlock(now), true)
    } else {
        (s, false)
    }
}

/// The reaction to losing input permission: unlock (which clears the
/// buffer), ask for the hook to stop, and ask the process to exit when so
/// configured.
pub open spec fn after_permission_loss(s: StateModel, now: u64) -> StateModel {
    StateModel {
        stop_requested: true,
        exit_requested: s.exit_requested || s.exit_on_permission_loss,
        ..s.with_locked(false, now)
    }
}

/// The permission monitor's step on a fresh answer of the permission oracle.
pub open spec fn permission_step(s: StateModel, granted: bool, now: u64) -> (StateModel, PermissionChange) {
    if s.disabled {
        (s, PermissionChange::Unchanged)
    } else if s.has_permission && !granted {
        (StateModel { has_permission: false, ..after_permission_loss(s, now) }, PermissionChange::Lost)
    } else if !s.has_permission && granted {
        (
            StateModel { has_permission: true, start_requested: true, ..s },
            PermissionChange::Restored,
        )
    } else {
        (s, PermissionChange::Unchanged)
    }
}

/// The permission monitor's first check: a missing permission is handled as
/// a loss, whatever was cached before.
pub open spec fn initial_permission_step(s: StateModel, granted: bool, now: u64) -> (StateModel, PermissionChange) {
    if granted {
        (StateModel { has_permission: true, ..s }, PermissionChange::Unchanged)
    } else {
        (StateModel { has_permission: false, ..after_permission_loss(s, now) }, PermissionChange::Lost)
    }
}

/// A registered shortcut fired: the lock shortcut locks an unlocked
/// session; the talk shortcut is advisory (the engine tracks press and
/// release itself). Nothing happens while disabled.
pub open spec fn hotkey_step(s: StateModel, action: HotkeyAction, now: u64) -> StateModel {
    if !s.disabled && action == HotkeyAction::Lock && !s.locked {
        s.with_locked(true, now)
    } else {
        s
    }
}

/// Losing input permission while locked unlocks at once, whatever the
/// auto-unlock deadline, clears the buffer and asks for the hook to stop.
pub proof fn lemma_permission_loss_unlocks(s: StateModel, now: u64)
    requires
        s.inv(),
        !s.disabled,
        s.has_permission,
    ensures
        permission_step(s, false, now).1 == PermissionChange::Lost,
        !permission_step(s, false, now).0.locked,
        permission_step(s, false, now).0.buffer.len() == 0,
        permission_step(s, false, now).0.lock_start_time is None,
        permission_step(s, false, now).0.stop_requested,
        permission_step(s, false, now).0.inv(),
{
}

/// Clears the typed buffer if it has been idle too long. Returns whether it did.
pub fn buffer_reset_tick(state: &mut AppStateInner, now: u64) -> (cleared: bool)
    requires
        old(state)@.inv(),
    ensures
        (final(state)@, cleared) == buffer_reset_step(old(state)@, now),
        final(state)@.inv(),
{
    if state.is_disabled() || !state.is_locked() {
        return false;
    }
    if state.should_reset_buffer(now) {
        let buffer = state.get_buffer();
        if buffer.as_str().unicode_len() > 0 {
            state.clear_buffer();
            return true;
        }
    }
    false
}

/// Locks an idle session. Returns whether it did.
pub fn auto_lock_tick(state: &mut AppStateInner, now: u64) -> (locked: bool)
    requires
        old(state)@.inv(),
    ensures
        (final(state)@, locked) == auto_lock_step(old(state)@, now),
        final(state)@.inv(),
{
    if state.is_disabled() || !state.get_cached_accessibility_permissions() {
        return false;
    }
    if state.should_auto_lock(now) {
        state.set_locked(true, now);
        true
    } else {
        false
    }
}

/// Forces the safety auto-unlock when it is due. Returns whether it did.
pub fn auto_unlock_tick(state: &mut AppStateInner, now: u64) -> (unlocked: bool)
    requires
        old(state)@.inv(),
    ensures
        (final(state)@, unlocked) == auto_unlock_step(old(state)@, now),
        final(state)@.inv(),
{
    if state.is_disabled() {
        return false;
    }
    if state.should_auto_unlock(now) {
        state.trigger_auto_unlock(now);
        true
    } else {
        false
    }
}

fn handle_permission_loss(state: &mut AppStateInner, now: u64)
    requires
        old(state)@.inv(),
    ensures
        final(state)@ == (StateModel { has_permission: false, ..after_permission_loss(old(state)@, now) }),
        final(state)@.inv(),
{
    state.set_locked(false, now);
    state.request_stop_event_tap();
    if state.exits_on_permission_loss() {
        state.request_exit();
    }
    state.set_cached_accessibility_permissions(false);
}

/// One check of the permission monitor with the oracle's answer `granted`.
pub fn permission_tick(state: &mut AppStateInner, granted: bool, now: u64) -> (change: PermissionChange)
    requires
        old(state)@.inv(),
    ensures
        (final(state)@, change) == permission_step(old(state)@, granted, now),
        final(state)@.inv(),
{
    if state.is_disabled() {
        return PermissionChange::Unchanged;
    }
    let last = state.get_cached_accessibility_permissions();
    if last && !granted {
        handle_permission_loss(state, now);
        PermissionChange::Lost
    } else if !last && granted {
        state.request_start_event_tap();
        state.set_cached_accessibility_permissions(true);
        PermissionChange::Restored
    } else {
        PermissionChange::Unchanged
    }
}

/// The monitor's first check, made when it starts.
pub fn initial_permission_check(state: &mut AppStateInner, granted: bool, now: u64) -> (change: PermissionChange)
    requires
        old(state)@.inv(),
    ensures
        (final(state)@, change) == initial_permission_step(old(state)@, granted, now),
        final(state)@.inv(),
{
    if granted {
        state.set_cached_accessibility_permissions(true);
        PermissionChange::Unchanged
    } else {
        handle_permission_loss(state, now);
        PermissionChange::Lost
    }
}

/// Reacts to a registered shortcut reported by the hotkey subsystem.
pub fn handle_hotkey_trigger(state: &mut AppStateInner, action: HotkeyAction, now: u64)
    requires
        old(state)@.inv(),
    ensures
        final(state)@ == hotkey_step(old(state)@, action, now),
        final(state)@.inv(),
{
    if state.is_disabled() {
        return;
    }
    match action {
        HotkeyAction::Lock => {
            if !state.is_locked() {
                state.set_locked(true, now);
            }
        },
        HotkeyAction::Talk => {},
    }
}

/// The controller's lock command: refused while input permission is not
/// granted, so that the session never looks locked without being enforced.
pub fn lock(state: &mut AppStateInner, now: u64) -> (r: Result<(), ControlError>)
    requires
        old(state)@.inv(),
    ensures
        old(state)@.has_permission ==> r is Ok && final(state)@ == old(state)@.with_locked(true, now),
        !old(state)@.has_permission ==> r == Err::<(), ControlError>(ControlError::PermissionDenied)
            && final(state)@ == old(state)@,
        final(state)@.inv(),
{
    if !state.get_cached_accessibility_permissions() {
        return Err(ControlError::PermissionDenied);
    }
    state.set_locked(true, now);
    Ok(())
}

/// The controller's unlock command: unlocks and returns `true` exactly when
/// `passphrase` matches the stored digest.
pub fn unlock(state: &mut AppStateInner, passphrase: &str, now: u64) -> (matched: bool)
    requires
        old(state)@.inv(),
    ensures
        matched == (old(state)@.passphrase_hash matches Some(h) && passphrase_digest(passphrase@) == h),
        matched ==> final(state)@ == old(state)@.with_locked(false, now),
        !matched ==> final(state)@ == old(state)@,
        final(state)@.inv(),
{
    match state.get_passphrase_hash() {
        Some(hash) => {
            if verify_passphrase(passphrase, hash.as_str()) {
                state.set_locked(false, now);
                true
            } else {
                false
            }
        },
        None => false,
    }
}

/// The controller's disable command on the session: supervisors and the
/// engine go idle, and any partly typed passphrase is discarded.
pub fn disable(state: &mut AppStateInner)
    requires
        old(state)@.inv(),
    ensures
        final(state)@ == (StateModel { disabled: true, ..old(state)@.with_buffer_cleared() }),
        final(state)@.inv(),
{
    state.set_disabled(true);
    state.clear_buffer();
}

/// The controller's enable command on the session, once interception runs
/// again: the idle clock is refreshed before the disabled flag is cleared, so
/// that the auto-lock does not fire at once.
pub fn enable(state: &mut AppStateInner, now: u64)
    requires
        old(state)@.inv(),
    ensures
        final(state)@ == (StateModel { disabled: false, ..old(state)@.with_input_time(now) }),
        !final(state)@.auto_lock_due(now),
        final(state)@.inv(),
{
    state.update_input_time(now);
    state.set_disabled(false);
}

} // verus!
