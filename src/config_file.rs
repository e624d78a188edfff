//! The stored configuration: encrypted passphrase, timeouts and hotkey
//! letters, with the checks a record must pass before it is used.

use vstd::prelude::*;
use crate::app_state::{DEFAULT_LOCK_KEYCODE, DEFAULT_TALK_KEYCODE};
use crate::crypto::{self, is_encryption_of, decrypted_text, CryptoError};
use crate::utils::keycode::{letter_keycode, letter_to_keycode};

verus! {

/// Upper-case form of a text under Unicode case mapping, as `str::to_uppercase` computes it.
pub uninterp spec fn upper_of(text: Seq<char>) -> Seq<char>;

/// Relies on `str::to_uppercase`, whose result depends on the text alone.
#[verifier::external_body]
pub(crate) fn to_upper(text: &str) -> (r: String)
    ensures
        r@ == upper_of(text@),
{
    text.to_uppercase()
}

/// Why a hotkey text is not a single letter.
#[derive(Clone, Copy, Debug, PartialEq, Eq)]
pub enum HotkeyProblem {
    NotSingleCharacter,
    NotLetter,
}

/// Why a configuration was refused.
#[derive(Clone, Copy, Debug, PartialEq, Eq)]
pub enum ConfigError {
    InvalidLockHotkey(HotkeyProblem),
    InvalidTalkHotkey(HotkeyProblem),
    DuplicateHotkeys,
    Encryption(CryptoError),
    Decryption(CryptoError),
}

pub open spec fn is_ascii_letter(c: char) -> bool {
    ('a' <= c && c <= 'z') || ('A' <= c && c <= 'Z')
}

/// An upper-cased hotkey is valid when it is one ASCII letter.
pub open spec fn letter_check(u: Seq<char>) -> Result<(), HotkeyProblem> {
    if !(u.len() == 1 && (u[0] as u32) < 128) {
        Err(HotkeyProblem::NotSingleCharacter)
    } else if !is_ascii_letter(u[0]) {
        Err(HotkeyProblem::NotLetter)
    } else {
        Ok(())
    }
}

/// A hotkey is valid when its upper-case form is one ASCII letter.
pub open spec fn hotkey_check(key: Seq<char>) -> Result<(), HotkeyProblem> {
    letter_check(upper_of(key))
}

/// Checks an already upper-cased hotkey text: a single ASCII letter.
pub fn check_hotkey_letter(upper: &str) -> (r: Result<(), HotkeyProblem>)
    ensures
        r == letter_check(upper@),
{
    if upper.unicode_len() != 1 {
        return Err(HotkeyProblem::NotSingleCharacter);
    }
    let c = upper.get_char(0);
    if (c as u32) >= 128 {
        return Err(HotkeyProblem::NotSingleCharacter);
    }
    if !(('a' <= c && c <= 'z') || ('A' <= c && c <= 'Z')) {
        return Err(HotkeyProblem::NotLetter);
    }
    Ok(())
}

pub open spec fn text_of(o: Option<String>) -> Option<Seq<char>> {
    match o {
        Some(s) => Some(s@),
        None => None,
    }
}

/// The checks on a pair of optional hotkeys: each one valid, and the two
/// different ignoring case.
pub open spec fn hotkeys_check(lock: Option<Seq<char>>, talk: Option<Seq<char>>) -> Result<(), ConfigError> {
    if lock is Some && hotkey_check(lock->Some_0) is Err {
        Err(ConfigError::InvalidLockHotkey(hotkey_check(lock->Some_0)->Err_0))
    } else if talk is Some && hotkey_check(talk->Some_0) is Err {
        Err(ConfigError::InvalidTalkHotkey(hotkey_check(talk->Some_0)->Err_0))
    } else if lock is Some && talk is Some && upper_of(lock->Some_0) == upper_of(talk->Some_0) {
        Err(ConfigError::DuplicateHotkeys)
    } else {
        Ok(())
    }
}

/// The keycode a configured hotkey binds to, given the default key.
pub open spec fn hotkey_keycode(key: Option<Seq<char>>, default: i64) -> Result<i64, HotkeyProblem> {
    match key {
        None => Ok(default),
        Some(k) => match hotkey_check(k) {
            Err(p) => Err(p),
            Ok(_) => Ok(letter_keycode(upper_of(k)[0])->Some_0),
        },
    }
}

pub open spec fn error_text(e: ConfigError) -> Seq<char> {
    match e {
        ConfigError::InvalidLockHotkey(HotkeyProblem::NotSingleCharacter) =>
            "Invalid lock_hotkey: hotkey must be a single character"@,
        ConfigError::InvalidLockHotkey(HotkeyProblem::NotLetter) =>
            "Invalid lock_hotkey: hotkey must be a letter A-Z"@,
        ConfigError::InvalidTalkHotkey(HotkeyProblem::NotSingleCharacter) =>
            "Invalid talk_hotkey: hotkey must be a single character"@,
        ConfigError::InvalidTalkHotkey(HotkeyProblem::NotLetter) =>
            "Invalid talk_hotkey: hotkey must be a letter A-Z"@,
        ConfigError::DuplicateHotkeys => "Lock and Talk hotkeys must be different"@,
        ConfigError::Encryption(_) => "Failed to encrypt passphrase"@,
        ConfigError::Decryption(_) => "Failed to decrypt passphrase"@,
    }
}

impl ConfigError {
    /// A sentence describing the error.
    pub fn message(&self) -> (r: String)
        ensures
            r@ == error_text(*self),
    {
        match self {
            ConfigError::InvalidLockHotkey(HotkeyProblem::NotSingleCharacter) => String::from_str(
                "Invalid lock_hotkey: hotkey must be a single character",
            ),
            ConfigError::InvalidLockHotkey(HotkeyProblem::NotLetter) => String::from_str(
                "Invalid lock_hotkey: hotkey must be a letter A-Z",
            ),
            ConfigError::InvalidTalkHotkey(HotkeyProblem::NotSingleCharacter) => String::from_str(
                "Invalid talk_hotkey: hotkey must be a single character",
            ),
            ConfigError::InvalidTalkHotkey(HotkeyProblem::NotLetter) => String::from_str(
                "Invalid talk_hotkey: hotkey must be a letter A-Z",
            ),
            ConfigError::DuplicateHotkeys => String::from_str("Lock and Talk hotkeys must be different"),
            ConfigError::Encryption(_) => String::from_str("Failed to encrypt passphrase"),
            ConfigError::Decryption(_) => String::from_str("Failed to decrypt passphrase"),
        }
    }
}

/// The application configuration as stored.
#[derive(Clone, Debug)]
pub struct Config {
    /// Base64 of the AES-256-GCM encrypted passphrase.
    pub encrypted_passphrase: String,
    /// Inactivity auto-lock timeout, in seconds.
    pub auto_lock_timeout: u64,
    /// Safety auto-unlock timeout, in seconds (0: disabled).
    pub auto_unlock_timeout: u64,
    /// Letter of the lock hotkey (default `L`).
    pub lock_hotkey: Option<String>,
    /// Letter of the talk hotkey (default `T`).
    pub talk_hotkey: Option<String>,
}

fn check_hotkeys(lock: &Option<String>, talk: &Option<String>) -> (r: Result<(), ConfigError>)
    ensures
        r == hotkeys_check(text_of(*lock), text_of(*talk)),
{
    if let Some(key) = lock {
        if let Err(p) = Config::validate_hotkey(key.as_str()) {
            return Err(ConfigError::InvalidLockHotkey(p));
        }
    }
    if let Some(key) = talk {
        if let Err(p) = Config::validate_hotkey(key.as_str()) {
            return Err(ConfigError::InvalidTalkHotkey(p));
        }
    }
    if let (Some(l), Some(t)) = (lock, talk) {
        let lu = to_upper(l.as_str());
        let tu = to_upper(t.as_str());
        if lu == tu {
            return Err(ConfigError::DuplicateHotkeys);
        }
    }
    Ok(())
}

impl Config {
    /// A new configuration holding `plaintext_passphrase` encrypted. The
    /// hotkeys are checked first; encryption then decides.
    pub fn new(
        plaintext_passphrase: &str,
        auto_lock: u64,
        auto_unlock: u64,
        lock_key: Option<String>,
        talk_key: Option<String>,
    ) -> (r: Result<Config, ConfigError>)
        ensures
            hotkeys_check(text_of(lock_key), text_of(talk_key)) matches Err(e) ==> r == Err::<
                Config,
                ConfigError,
            >(e),
            hotkeys_check(text_of(lock_key), text_of(talk_key)) is Ok ==> match r {
                Ok(c) => {
                    &&& is_encryption_of(c.encrypted_passphrase@, plaintext_passphrase@)
                    &&& c.auto_lock_timeout == auto_lock
                    &&& c.auto_unlock_timeout == auto_unlock
                    &&& c.lock_hotkey == lock_key
                    &&& c.talk_hotkey == talk_key
                },
                Err(e) => e matches ConfigError::Encryption(_),
            },
    {
        if let Err(e) = check_hotkeys(&lock_key, &talk_key) {
            return Err(e);
        }
        match crypto::encrypt_passphrase(plaintext_passphrase) {
            Ok(encrypted_passphrase) => Ok(Config {
                encrypted_passphrase,
                auto_lock_timeout: auto_lock,
                auto_unlock_timeout: auto_unlock,
                lock_hotkey: lock_key,
                talk_hotkey: talk_key,
            }),
            Err(e) => Err(ConfigError::Encryption(e)),
        }
    }

    /// Accepts a configuration record as read from storage: its hotkeys must
    /// be valid and distinct. The record is returned unchanged.
    pub fn load(raw: Config) -> (r: Result<Config, ConfigError>)
        ensures
            hotkeys_check(text_of(raw.lock_hotkey), text_of(raw.talk_hotkey)) matches Err(e) ==> r
                == Err::<Config, ConfigError>(e),
            hotkeys_check(text_of(raw.lock_hotkey), text_of(raw.talk_hotkey)) is Ok ==> r == Ok::<
                Config,
                ConfigError,
            >(raw),
    {
        match check_hotkeys(&raw.lock_hotkey, &raw.talk_hotkey) {
            Err(e) => Err(e),
            Ok(()) => Ok(raw),
        }
    }

    /// Decrypts the stored passphrase.
    pub fn get_passphrase(&self) -> (r: Result<String, ConfigError>)
        ensures
            decrypted_text(self.encrypted_passphrase@) matches Ok(p) ==> r matches Ok(s) && s@ == p,
            decrypted_text(self.encrypted_passphrase@) matches Err(e) ==> r == Err::<
                String,
                ConfigError,
            >(ConfigError::Decryption(e)),
    {
        match crypto::decrypt_passphrase(self.encrypted_passphrase.as_str()) {
            Ok(s) => Ok(s),
            Err(e) => Err(ConfigError::Decryption(e)),
        }
    }

    /// Checks that a hotkey text is a single letter A-Z, in either case.
    pub fn validate_hotkey(key: &str) -> (r: Result<(), HotkeyProblem>)
        ensures
            r == hotkey_check(key@),
    {
        let upper = to_upper(key);
        check_hotkey_letter(upper.as_str())
    }

    /// The upper-case letter a valid hotkey text names.
    pub fn parse_key_string(key: &str) -> (r: Result<char, HotkeyProblem>)
        ensures
            hotkey_check(key@) matches Err(p) ==> r == Err::<char, HotkeyProblem>(p),
            hotkey_check(key@) is Ok ==> r == Ok::<char, HotkeyProblem>(upper_of(key@)[0]),
    {
        Self::validate_hotkey(key)?;
        let upper = to_upper(key);
        Ok(upper.as_str().get_char(0))
    }

    fn key_code(key: &Option<String>, default: i64) -> (r: Result<i64, HotkeyProblem>)
        ensures
            r == hotkey_keycode(text_of(*key), default),
    {
        match key {
            None => Ok(default),
            Some(k) => {
                let letter = Self::parse_key_string(k.as_str())?;
                match letter_to_keycode(letter) {
                    Some(code) => Ok(code),
                    None => Err(HotkeyProblem::NotLetter),
                }
            },
        }
    }

    /// The keycode of the lock hotkey, `L` when none is configured.
    pub fn get_lock_key_code(&self) -> (r: Result<i64, ConfigError>)
        ensures
            hotkey_keycode(text_of(self.lock_hotkey), DEFAULT_LOCK_KEYCODE) matches Ok(k) ==> r
                == Ok::<i64, ConfigError>(k),
            hotkey_keycode(text_of(self.lock_hotkey), DEFAULT_LOCK_KEYCODE) matches Err(p) ==> r
                == Err::<i64, ConfigError>(ConfigError::InvalidLockHotkey(p)),
    {
        match Self::key_code(&self.lock_hotkey, DEFAULT_LOCK_KEYCODE) {
            Ok(k) => Ok(k),
            Err(p) => Err(ConfigError::InvalidLockHotkey(p)),
        }
    }

    /// The keycode of the talk hotkey, `T` when none is configured.
    pub fn get_talk_key_code(&self) -> (r: Result<i64, ConfigError>)
        ensures
            hotkey_keycode(text_of(self.talk_hotkey), DEFAULT_TALK_KEYCODE) matches Ok(k) ==> r
                == Ok::<i64, ConfigError>(k),
            hotkey_keycode(text_of(self.talk_hotkey), DEFAULT_TALK_KEYCODE) matches Err(p) ==> r
                == Err::<i64, ConfigError>(ConfigError::InvalidTalkHotkey(p)),
    {
        match Self::key_code(&self.talk_hotkey, DEFAULT_TALK_KEYCODE) {
            Ok(k) => Ok(k),
            Err(p) => Err(ConfigError::InvalidTalkHotkey(p)),
        }
    }
}

/// Why a passphrase chosen during setup was refused.
#[derive(Clone, Copy, Debug, PartialEq, Eq)]
pub enum SetupError {
    EmptyPassphrase,
    PassphraseMismatch,
}

/// Checks a new passphrase and its confirmation: the passphrase must not be
/// empty, and the confirmation must repeat it exactly.
pub fn check_new_passphrase(passphrase: &str, confirmation: &str) -> (r: Result<(), SetupError>)
    ensures
        passphrase@.len() == 0 ==> r == Err::<(), SetupError>(SetupError::EmptyPassphrase),
        passphrase@.len() > 0 && passphrase@ != confirmation@ ==> r == Err::<(), SetupError>(
            SetupError::PassphraseMismatch,
        ),
        passphrase@.len() > 0 && passphrase@ == confirmation@ ==> r is Ok,
{
    if passphrase.is_empty() {
        return Err(SetupError::EmptyPassphrase);
    }
    let a = passphrase.to_owned();
    let b = confirmation.to_owned();
    if a == b {
        Ok(())
    } else {
        Err(SetupError::PassphraseMismatch)
    }
}

} // verus!
