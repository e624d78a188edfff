//! The session state shared by the event engine, the timer supervisors and the
//! controller. Times are monotonic millisecond timestamps supplied by the caller.

use vstd::prelude::*;
use crate::utils::chars_to_string;

verus! {

/// Smallest accepted inactivity auto-lock timeout, in seconds.
pub const AUTO_LOCK_MIN_SECONDS: u64 = 20;
/// Largest accepted inactivity auto-lock timeout, in seconds.
pub const AUTO_LOCK_MAX_SECONDS: u64 = 600;
/// Inactivity auto-lock timeout of a fresh session, in seconds.
pub const AUTO_LOCK_DEFAULT_SECONDS: u64 = 30;
/// Smallest accepted safety auto-unlock timeout, in seconds.
pub const AUTO_UNLOCK_MIN_SECONDS: u64 = 60;
/// Largest accepted safety auto-unlock timeout, in seconds.
pub const AUTO_UNLOCK_MAX_SECONDS: u64 = 900;
/// Safety auto-unlock timeout used when nothing else configures one (0: disabled).
pub const AUTO_UNLOCK_DEFAULT_SECONDS: u64 = 0;
/// Idle time after which a partly typed passphrase is discarded, in seconds.
pub const BUFFER_RESET_DEFAULT_SECONDS: u64 = 5;
/// Default lock hotkey: the `L` key.
pub const DEFAULT_LOCK_KEYCODE: i64 = 37;
/// Default talk hotkey: the `T` key.
pub const DEFAULT_TALK_KEYCODE: i64 = 17;

/// Milliseconds from `since` to `now`; zero when `now` is earlier.
pub open spec fn elapsed_ms(since: u64, now: u64) -> nat {
    if now >= since {
        (now - since) as nat
    } else {
        0
    }
}

/// Whole seconds from `since` to `now`.
pub open spec fn elapsed_secs(since: u64, now: u64) -> nat {
    elapsed_ms(since, now) / 1000
}

/// The mathematical content of a session.
pub struct StateModel {
    /// Whether input is blocked.
    pub locked: bool,
    /// Characters typed since the lock began (or since the last reset).
    pub buffer: Seq<char>,
    /// Time of the last keystroke, which drives the buffer reset.
    pub last_key_time: Option<u64>,
    /// Time of the last input of any kind, which drives the auto-lock.
    pub last_input_time: u64,
    /// Hex digest of the passphrase.
    pub passphrase_hash: Option<Seq<char>>,
    /// Inactivity auto-lock timeout, in seconds.
    pub auto_lock_timeout: u64,
    /// Idle time after which the buffer is discarded, in seconds.
    pub buffer_reset_timeout: u64,
    /// Safety auto-unlock timeout, in seconds; `None` when disabled.
    pub auto_unlock_timeout: Option<u64>,
    /// Whether the talk hotkey is held down.
    pub talk_key_pressed: bool,
    /// When the current lock began.
    pub lock_start_time: Option<u64>,
    /// Last answer of the permission oracle.
    pub has_permission: bool,
    /// One-shot request to stop the interception hook.
    pub stop_requested: bool,
    /// One-shot request to start the interception hook.
    pub start_requested: bool,
    /// One-shot request to switch the existing hook back on.
    pub reenable_requested: bool,
    /// One-shot request for the process to exit.
    pub exit_requested: bool,
    /// Whether losing permission also requests an exit.
    pub exit_on_permission_loss: bool,
    /// Paused: supervisors skip their work.
    pub disabled: bool,
    /// Keycode of the lock hotkey (with Control, Command and Shift).
    pub lock_keycode: i64,
    /// Keycode of the talk hotkey (with Control, Command and Shift).
    pub talk_keycode: i64,
}

impl StateModel {
    /// The session's invariant.
    pub open spec fn inv(self) -> bool {
        &&& self.locked <==> self.lock_start_time is Some
        &&& !self.locked ==> self.buffer.len() == 0
        &&& AUTO_LOCK_MIN_SECONDS <= self.auto_lock_timeout <= AUTO_LOCK_MAX_SECONDS
        &&& (self.auto_unlock_timeout matches Some(t) ==> AUTO_UNLOCK_MIN_SECONDS <= t
            <= AUTO_UNLOCK_MAX_SECONDS)
    }

    /// Setting the lock flag: only the transition to locked records the start
    /// time; any unlock clears the start time and the typed buffer.
    pub open spec fn with_locked(self, locked: bool, now: u64) -> StateModel {
        if locked {
            if self.locked {
                self
            } else {
                StateModel { locked: true, lock_start_time: Some(now), ..self }
            }
        } else {
            StateModel { locked: false, lock_start_time: None, buffer: Seq::empty(), ..self }
        }
    }

    /// Appending a typed character, which only happens while locked.
    pub open spec fn with_appended(self, ch: char) -> StateModel {
        if self.locked {
            StateModel { buffer: self.buffer.push(ch), ..self }
        } else {
            self
        }
    }

    /// Removing the last typed character; no change on an empty buffer.
    pub open spec fn with_backspace(self) -> StateModel {
        if self.buffer.len() > 0 {
            StateModel { buffer: self.buffer.drop_last(), ..self }
        } else {
            self
        }
    }

    /// Discarding the typed buffer.
    pub open spec fn with_buffer_cleared(self) -> StateModel {
        StateModel { buffer: Seq::empty(), ..self }
    }

    /// Refreshing the inactivity clock.
    pub open spec fn with_input_time(self, now: u64) -> StateModel {
        StateModel { last_input_time: now, ..self }
    }

    /// Refreshing the keystroke clock.
    pub open spec fn with_key_time(self, now: u64) -> StateModel {
        StateModel { last_key_time: Some(now), ..self }
    }

    /// Whether the typed buffer is due to be discarded for idleness.
    pub open spec fn buffer_reset_due(self, now: u64) -> bool {
        match self.last_key_time {
            Some(k) => elapsed_secs(k, now) >= self.buffer_reset_timeout,
            None => false,
        }
    }

    /// Whether the inactivity auto-lock is due.
    pub open spec fn auto_lock_due(self, now: u64) -> bool {
        !self.locked && elapsed_secs(self.last_input_time, now) >= self.auto_lock_timeout
    }

    /// Whether the safety auto-unlock is due: locked, a non-zero timeout
    /// configured, and at least that many seconds since the lock began.
    pub open spec fn auto_unlock_due(self, now: u64) -> bool {
        &&& self.locked
        &&& self.auto_unlock_timeout matches Some(t)
        &&& t > 0
        &&& self.lock_start_time matches Some(s)
        &&& elapsed_ms(s, now) >= t * 1000
    }

    /// The safety auto-unlock: the idle clock is refreshed, then the lock and
    /// buffer are cleared. No change when not locked.
    pub open spec fn after_auto_unlock(self, now: u64) -> StateModel {
        if self.locked {
            self.with_input_time(now).with_locked(false, now)
        } else {
            self
        }
    }

    /// What an auto-unlock timeout setting becomes: `0` and absent both
    /// disable; an out-of-range value is refused (`None`).
    pub open spec fn accepted_auto_unlock(timeout: Option<u64>) -> Option<Option<u64>> {
        match timeout {
            None => Some(None),
            Some(t) => if t == 0 {
                Some(None)
            } else if AUTO_UNLOCK_MIN_SECONDS <= t <= AUTO_UNLOCK_MAX_SECONDS {
                Some(Some(t))
            } else {
                None
            },
        }
    }
}

/// A fresh, unlocked session whose idle clock starts at `now`.
pub open spec fn initial_model(now: u64) -> StateModel {
    StateModel {
        locked: false,
        buffer: Seq::empty(),
        last_key_time: None,
        last_input_time: now,
        passphrase_hash: None,
        auto_lock_timeout: AUTO_LOCK_DEFAULT_SECONDS,
        buffer_reset_timeout: BUFFER_RESET_DEFAULT_SECONDS,
        auto_unlock_timeout: None,
        talk_key_pressed: false,
        lock_start_time: None,
        has_permission: false,
        stop_requested: false,
        start_requested: false,
        reenable_requested: false,
        exit_requested: false,
        exit_on_permission_loss: false,
        disabled: false,
        lock_keycode: DEFAULT_LOCK_KEYCODE,
        talk_keycode: DEFAULT_TALK_KEYCODE,
    }
}

/// Locking an already locked session changes nothing: the lock start is
/// recorded only by the transition, and the buffer is kept.
pub proof fn lemma_lock_idempotent(s: StateModel, first: u64, second: u64)
    requires
        s.inv(),
    ensures
        s.with_locked(true, first).with_locked(true, second) == s.with_locked(true, first),
        s.with_locked(true, first).buffer == s.buffer,
{
}

/// With a timeout of `t` seconds and the lock engaged at `locked_at`, the
/// safety auto-unlock is due exactly once `t` seconds have elapsed.
pub proof fn lemma_auto_unlock_boundary(s: StateModel, t: u64, locked_at: u64, now: u64)
    requires
        s.inv(),
        !s.locked,
        s.auto_unlock_timeout == Some(t),
    ensures
        s.with_locked(true, locked_at).auto_unlock_due(now) <==> elapsed_ms(locked_at, now) >= t
            * 1000,
{
}

/// A disabled auto-unlock (absent, or zero) is never due.
pub proof fn lemma_auto_unlock_disabled(s: StateModel, now: u64)
    requires
        s.auto_unlock_timeout is None || s.auto_unlock_timeout == Some(0u64),
    ensures
        !s.auto_unlock_due(now),
{
}

/// Zero given to the setter disables the auto-unlock as absence does.
pub proof fn lemma_zero_timeout_disables()
    ensures
        StateModel::accepted_auto_unlock(Some(0)) == StateModel::accepted_auto_unlock(None),
        StateModel::accepted_auto_unlock(None) == Some(None::<u64>),
{
}

/// Unlocking resets the auto-unlock deadline: after lock, unlock and lock
/// again, only the time since the second lock counts.
pub proof fn lemma_auto_unlock_restarts(
    s: StateModel,
    t: u64,
    first_lock: u64,
    unlock_at: u64,
    second_lock: u64,
    now: u64,
)
    requires
        s.inv(),
        !s.locked,
        s.auto_unlock_timeout == Some(t),
    ensures
        s.with_locked(true, first_lock).with_locked(false, unlock_at).with_locked(
            true,
            second_lock,
        ).auto_unlock_due(now) <==> elapsed_ms(second_lock, now) >= t * 1000,
{
}

/// The safety auto-unlock refreshes the idle clock, so the inactivity
/// auto-lock is not due right after it.
pub proof fn lemma_auto_unlock_defers_auto_lock(s: StateModel, now: u64)
    requires
        s.inv(),
        s.locked,
    ensures
        !s.after_auto_unlock(now).auto_lock_due(now),
        !s.after_auto_unlock(now).locked,
        s.after_auto_unlock(now).buffer.len() == 0,
        s.after_auto_unlock(now).lock_start_time is None,
{
}

/// The session record: lock flag, typed buffer, clocks, configuration,
/// cached permission and the one-shot request flags.
pub struct AppStateInner {
    is_locked: bool,
    input_buffer: Vec<char>,
    last_key_time: Option<u64>,
    last_input_time: u64,
    passphrase_hash: Option<String>,
    auto_lock_timeout: u64,
    buffer_reset_timeout: u64,
    talk_key_pressed: bool,
    lock_start_time: Option<u64>,
    auto_unlock_timeout: Option<u64>,
    has_accessibility_permissions: bool,
    should_stop_event_tap: bool,
    should_start_event_tap: bool,
    should_reenable_event_tap: bool,
    should_exit: bool,
    exit_on_permission_loss: bool,
    is_disabled: bool,
    lock_keycode: i64,
    talk_keycode: i64,
}

impl View for AppStateInner {
    type V = StateModel;

    closed spec fn view(&self) -> StateModel {
        StateModel {
            locked: self.is_locked,
            buffer: self.input_buffer@,
            last_key_time: self.last_key_time,
            last_input_time: self.last_input_time,
            passphrase_hash: match self.passphrase_hash {
                Some(h) => Some(h@),
                None => None,
            },
            auto_lock_timeout: self.auto_lock_timeout,
            buffer_reset_timeout: self.buffer_reset_timeout,
            auto_unlock_timeout: self.auto_unlock_timeout,
            talk_key_pressed: self.talk_key_pressed,
            lock_start_time: self.lock_start_time,
            has_permission: self.has_accessibility_permissions,
            stop_requested: self.should_stop_event_tap,
            start_requested: self.should_start_event_tap,
            reenable_requested: self.should_reenable_event_tap,
            exit_requested: self.should_exit,
            exit_on_permission_loss: self.exit_on_permission_loss,
            disabled: self.is_disabled,
            lock_keycode: self.lock_keycode,
            talk_keycode: self.talk_keycode,
        }
    }
}

impl AppStateInner {
    /// A fresh session, unlocked, with default timeouts and hotkeys.
    pub fn new(now: u64) -> (r: AppStateInner)
        ensures
            r@ == initial_model(now),
            r@.inv(),
    {
        AppStateInner {
            is_locked: false,
            input_buffer: Vec::new(),
            last_key_time: None,
            last_input_time: now,
            passphrase_hash: None,
            auto_lock_timeout: AUTO_LOCK_DEFAULT_SECONDS,
            buffer_reset_timeout: BUFFER_RESET_DEFAULT_SECONDS,
            talk_key_pressed: false,
            lock_start_time: None,
            auto_unlock_timeout: None,
            has_accessibility_permissions: false,
            should_stop_event_tap: false,
            should_start_event_tap: false,
            should_reenable_event_tap: false,
            should_exit: false,
            exit_on_permission_loss: false,
            is_disabled: false,
            lock_keycode: DEFAULT_LOCK_KEYCODE,
            talk_keycode: DEFAULT_TALK_KEYCODE,
        }
    }

    pub fn is_locked(&self) -> (r: bool)
        ensures
            r == self@.locked,
    {
        self.is_locked
    }

    /// Sets the lock flag. Locking an unlocked session records `now` as the
    /// lock start; locking a locked session changes nothing; unlocking clears
    /// the start time and the typed buffer.
    pub fn set_locked(&mut self, locked: bool, now: u64)
        requires
            old(self)@.inv(),
        ensures
            final(self)@ == old(self)@.with_locked(locked, now),
            final(self)@.inv(),
    {
        if locked {
            if !self.is_locked {
                self.is_locked = true;
                self.lock_start_time = Some(now);
            }
        } else {
            self.is_locked = false;
            self.lock_start_time = None;
            self.input_buffer.clear();
        }
    }

    /// Refreshes the inactivity clock.
    pub fn update_input_time(&mut self, now: u64)
        requires
            old(self)@.inv(),
        ensures
            final(self)@ == old(self)@.with_input_time(now),
            final(self)@.inv(),
    {
        self.last_input_time = now;
    }

    /// Refreshes the keystroke clock that drives the buffer reset.
    pub fn update_key_time(&mut self, now: u64)
        requires
            old(self)@.inv(),
        ensures
            final(self)@ == old(self)@.with_key_time(now),
            final(self)@.inv(),
    {
        self.last_key_time = Some(now);
    }

    /// Appends a typed character; ignored while unlocked.
    pub fn append_to_buffer(&mut self, ch: char)
        requires
            old(self)@.inv(),
        ensures
            final(self)@ == old(self)@.with_appended(ch),
            final(self)@.inv(),
    {
        if self.is_locked {
            self.input_buffer.push(ch);
        }
    }

    /// Removes the last typed character, if any.
    pub fn pop_from_buffer(&mut self)
        requires
            old(self)@.inv(),
        ensures
            final(self)@ == old(self)@.with_backspace(),
            final(self)@.inv(),
    {
        if self.input_buffer.len() > 0 {
            let _ = self.input_buffer.pop();
        }
    }

    pub fn clear_buffer(&mut self)
        requires
            old(self)@.inv(),
        ensures
            final(self)@ == old(self)@.with_buffer_cleared(),
            final(self)@.inv(),
    {
        self.input_buffer.clear();
    }

    pub fn get_buffer(&self) -> (r: String)
        ensures
            r@ == self@.buffer,
    {
        chars_to_string(&self.input_buffer)
    }

    pub fn set_passphrase_hash(&mut self, hash: String)
        requires
            old(self)@.inv(),
        ensures
            final(self)@ == (StateModel { passphrase_hash: Some(hash@), ..old(self)@ }),
            final(self)@.inv(),
    {
        self.passphrase_hash = Some(hash);
    }

    pub fn get_passphrase_hash(&self) -> (r: Option<String>)
        ensures
            r matches Some(h) ==> self@.passphrase_hash == Some(h@),
            r is None ==> self@.passphrase_hash is None,
    {
        match &self.passphrase_hash {
            Some(h) => Some(h.clone()),
            None => None,
        }
    }

    /// Whether the typed buffer has been idle for the buffer reset timeout.
    pub fn should_reset_buffer(&self, now: u64) -> (r: bool)
        ensures
            r == self@.buffer_reset_due(now),
    {
        match self.last_key_time {
            Some(k) => elapsed_secs_of(k, now) >= self.buffer_reset_timeout,
            None => false,
        }
    }

    /// Whether the session is unlocked and idle for the auto-lock timeout.
    pub fn should_auto_lock(&self, now: u64) -> (r: bool)
        ensures
            r == self@.auto_lock_due(now),
    {
        !self.is_locked && elapsed_secs_of(self.last_input_time, now) >= self.auto_lock_timeout
    }

    /// Seconds left before the inactivity auto-lock; `None` while locked.
    pub fn get_auto_lock_remaining_secs(&self, now: u64) -> (r: Option<u64>)
        ensures
            self@.locked ==> r is None,
            !self@.locked ==> r == Some(
                (if elapsed_secs(self@.last_input_time, now) >= self@.auto_lock_timeout {
                    0
                } else {
                    (self@.auto_lock_timeout - elapsed_secs(self@.last_input_time, now)) as u64
                }),
            ),
    {
        if self.is_locked {
            return None;
        }
        let elapsed = elapsed_secs_of(self.last_input_time, now);
        Some(self.auto_lock_timeout.saturating_sub(elapsed))
    }

    pub fn set_talk_key_pressed(&mut self, pressed: bool)
        requires
            old(self)@.inv(),
        ensures
            final(self)@ == (StateModel { talk_key_pressed: pressed, ..old(self)@ }),
            final(self)@.inv(),
    {
        self.talk_key_pressed = pressed;
    }

    pub fn is_talk_key_pressed(&self) -> (r: bool)
        ensures
            r == self@.talk_key_pressed,
    {
        self.talk_key_pressed
    }

    /// Sets the inactivity auto-lock timeout if it lies in the accepted range;
    /// returns whether it was accepted.
    pub fn set_auto_lock_timeout(&mut self, timeout: u64) -> (r: bool)
        requires
            old(self)@.inv(),
        ensures
            r == (AUTO_LOCK_MIN_SECONDS <= timeout <= AUTO_LOCK_MAX_SECONDS),
            r ==> final(self)@ == (StateModel { auto_lock_timeout: timeout, ..old(self)@ }),
            !r ==> final(self)@ == old(self)@,
            final(self)@.inv(),
    {
        if AUTO_LOCK_MIN_SECONDS <= timeout && timeout <= AUTO_LOCK_MAX_SECONDS {
            self.auto_lock_timeout = timeout;
            true
        } else {
            false
        }
    }

    /// Sets the safety auto-unlock timeout. `None` and `Some(0)` disable it;
    /// a value outside the accepted range is refused. Returns whether the
    /// setting was accepted.
    pub fn set_auto_unlock_timeout(&mut self, timeout: Option<u64>) -> (r: bool)
        requires
            old(self)@.inv(),
        ensures
            r == StateModel::accepted_auto_unlock(timeout) is Some,
            StateModel::accepted_auto_unlock(timeout) matches Some(t) ==> final(self)@
                == (StateModel { auto_unlock_timeout: t, ..old(self)@ }),
            !r ==> final(self)@ == old(self)@,
            final(self)@.inv(),
    {
        match timeout {
            None => {
                self.auto_unlock_timeout = None;
                true
            },
            Some(t) => {
                if t == 0 {
                    self.auto_unlock_timeout = None;
                    true
                } else if AUTO_UNLOCK_MIN_SECONDS <= t && t <= AUTO_UNLOCK_MAX_SECONDS {
                    self.auto_unlock_timeout = Some(t);
                    true
                } else {
                    false
                }
            },
        }
    }

    /// Whether the safety auto-unlock is due at `now`.
    pub fn should_auto_unlock(&self, now: u64) -> (r: bool)
        ensures
            r == self@.auto_unlock_due(now),
    {
        if !self.is_locked {
            return false;
        }
        let t = match self.auto_unlock_timeout {
            Some(t) => t,
            None => return false,
        };
        if t == 0 {
            return false;
        }
        let start = match self.lock_start_time {
            Some(s) => s,
            None => return false,
        };
        let elapsed = if now >= start { now - start } else { 0 };
        elapsed / 1000 >= t
    }

    /// Forces the safety unlock: the idle clock is refreshed first so that
    /// the inactivity auto-lock does not fire again at once, then the lock,
    /// its start time and the buffer are cleared. No change when unlocked.
    pub fn trigger_auto_unlock(&mut self, now: u64)
        requires
            old(self)@.inv(),
        ensures
            final(self)@ == old(self)@.after_auto_unlock(now),
            final(self)@.inv(),
    {
        if self.is_locked {
            self.last_input_time = now;
            self.is_locked = false;
            self.lock_start_time = None;
            self.input_buffer.clear();
        }
    }

    /// Whole seconds since the lock began; `None` while unlocked.
    pub fn get_lock_elapsed_secs(&self, now: u64) -> (r: Option<u64>)
        ensures
            self@.lock_start_time matches Some(s) ==> r == Some(elapsed_secs(s, now) as u64),
            self@.lock_start_time is None ==> r is None,
    {
        match self.lock_start_time {
            Some(s) => Some(elapsed_secs_of(s, now)),
            None => None,
        }
    }

    /// Seconds left before the safety auto-unlock; `None` when unlocked or
    /// when no auto-unlock is configured.
    pub fn get_auto_unlock_remaining_secs(&self, now: u64) -> (r: Option<u64>)
        ensures
            (self@.locked && self@.auto_unlock_timeout is Some && self@.lock_start_time is Some)
                ==> r == Some(
                (if elapsed_secs(self@.lock_start_time->Some_0, now)
                    >= self@.auto_unlock_timeout->Some_0 {
                    0
                } else {
                    (self@.auto_unlock_timeout->Some_0 - elapsed_secs(
                        self@.lock_start_time->Some_0,
                        now,
                    )) as u64
                }),
            ),
            !(self@.locked && self@.auto_unlock_timeout is Some && self@.lock_start_time is Some)
                ==> r is None,
    {
        if !self.is_locked {
            return None;
        }
        let timeout = match self.auto_unlock_timeout {
            Some(t) => t,
            None => return None,
        };
        let start = match self.lock_start_time {
            Some(s) => s,
            None => return None,
        };
        Some(timeout.saturating_sub(elapsed_secs_of(start, now)))
    }

    pub fn get_auto_unlock_timeout(&self) -> (r: Option<u64>)
        ensures
            r == self@.auto_unlock_timeout,
    {
        self.auto_unlock_timeout
    }

    pub fn get_cached_accessibility_permissions(&self) -> (r: bool)
        ensures
            r == self@.has_permission,
    {
        self.has_accessibility_permissions
    }

    pub fn set_cached_accessibility_permissions(&mut self, has_permissions: bool)
        requires
            old(self)@.inv(),
        ensures
            final(self)@ == (StateModel { has_permission: has_permissions, ..old(self)@ }),
            final(self)@.inv(),
    {
        self.has_accessibility_permissions = has_permissions;
    }

    pub fn request_stop_event_tap(&mut self)
        requires
            old(self)@.inv(),
        ensures
            final(self)@ == (StateModel { stop_requested: true, ..old(self)@ }),
            final(self)@.inv(),
    {
        self.should_stop_event_tap = true;
    }

    /// Reads and clears the stop request.
    pub fn should_stop_event_tap_and_clear(&mut self) -> (r: bool)
        requires
            old(self)@.inv(),
        ensures
            r == old(self)@.stop_requested,
            final(self)@ == (StateModel { stop_requested: false, ..old(self)@ }),
            final(self)@.inv(),
    {
        let r = self.should_stop_event_tap;
        self.should_stop_event_tap = false;
        r
    }

    pub fn request_start_event_tap(&mut self)
        requires
            old(self)@.inv(),
        ensures
            final(self)@ == (StateModel { start_requested: true, ..old(self)@ }),
            final(self)@.inv(),
    {
        self.should_start_event_tap = true;
    }

    /// Reads and clears the start request.
    pub fn should_start_event_tap_and_clear(&mut self) -> (r: bool)
        requires
            old(self)@.inv(),
        ensures
            r == old(self)@.start_requested,
            final(self)@ == (StateModel { start_requested: false, ..old(self)@ }),
            final(self)@.inv(),
    {
        let r = self.should_start_event_tap;
        self.should_start_event_tap = false;
        r
    }

    pub fn request_reenable_event_tap(&mut self)
        requires
            old(self)@.inv(),
        ensures
            final(self)@ == (StateModel { reenable_requested: true, ..old(self)@ }),
            final(self)@.inv(),
    {
        self.should_reenable_event_tap = true;
    }

    /// Reads and clears the request to re-enable the existing hook.
    pub fn should_reenable_event_tap_and_clear(&mut self) -> (r: bool)
        requires
            old(self)@.inv(),
        ensures
            r == old(self)@.reenable_requested,
            final(self)@ == (StateModel { reenable_requested: false, ..old(self)@ }),
            final(self)@.inv(),
    {
        let r = self.should_reenable_event_tap;
        self.should_reenable_event_tap = false;
        r
    }

    pub fn request_exit(&mut self)
        requires
            old(self)@.inv(),
        ensures
            final(self)@ == (StateModel { exit_requested: true, ..old(self)@ }),
            final(self)@.inv(),
    {
        self.should_exit = true;
    }

    /// Reads and clears the exit request.
    pub fn should_exit_and_clear(&mut self) -> (r: bool)
        requires
            old(self)@.inv(),
        ensures
            r == old(self)@.exit_requested,
            final(self)@ == (StateModel { exit_requested: false, ..old(self)@ }),
            final(self)@.inv(),
    {
        let r = self.should_exit;
        self.should_exit = false;
        r
    }

    /// Chooses whether losing the input permission also asks the process to
    /// exit (for front-ends without a menu to recover from).
    pub fn set_exit_on_permission_loss(&mut self, exit: bool)
        requires
            old(self)@.inv(),
        ensures
            final(self)@ == (StateModel { exit_on_permission_loss: exit, ..old(self)@ }),
            final(self)@.inv(),
    {
        self.exit_on_permission_loss = exit;
    }

    pub fn exits_on_permission_loss(&self) -> (r: bool)
        ensures
            r == self@.exit_on_permission_loss,
    {
        self.exit_on_permission_loss
    }

    pub fn is_disabled(&self) -> (r: bool)
        ensures
            r == self@.disabled,
    {
        self.is_disabled
    }

    pub fn set_disabled(&mut self, disabled: bool)
        requires
            old(self)@.inv(),
        ensures
            final(self)@ == (StateModel { disabled: disabled, ..old(self)@ }),
            final(self)@.inv(),
    {
        self.is_disabled = disabled;
    }

    /// Binds the lock and talk hotkeys to two keycodes; refused (returns
    /// `false`, nothing changed) when both are the same key.
    pub fn set_hotkey_keycodes(&mut self, lock_keycode: i64, talk_keycode: i64) -> (r: bool)
        requires
            old(self)@.inv(),
        ensures
            r == (lock_keycode != talk_keycode),
            r ==> final(self)@ == (StateModel {
                lock_keycode: lock_keycode,
                talk_keycode: talk_keycode,
                ..old(self)@
            }),
            !r ==> final(self)@ == old(self)@,
            final(self)@.inv(),
    {
        if lock_keycode == talk_keycode {
            return false;
        }
        self.lock_keycode = lock_keycode;
        self.talk_keycode = talk_keycode;
        true
    }

    pub fn lock_keycode(&self) -> (r: i64)
        ensures
            r == self@.lock_keycode,
    {
        self.lock_keycode
    }

    pub fn talk_keycode(&self) -> (r: i64)
        ensures
            r == self@.talk_keycode,
    {
        self.talk_keycode
    }
}

/// Whole seconds from `since` to `now`, zero when `now` is earlier.
pub fn elapsed_secs_of(since: u64, now: u64) -> (r: u64)
    ensures
        r == elapsed_secs(since, now),
{
    if now >= since {
        (now - since) / 1000
    } else {
        0
    }
}

} // verus!
