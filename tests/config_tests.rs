use handsoff::app_state::AUTO_UNLOCK_DEFAULT_SECONDS;
use handsoff::config::{
    parse_auto_lock_timeout, parse_auto_unlock_timeout, parse_lock_hotkey, parse_talk_hotkey,
    parse_u64, resolve_auto_unlock_timeout, resolve_auto_unlock_timeout_internal,
};
use handsoff::config_file::{check_hotkey_letter, check_new_passphrase, Config, ConfigError, HotkeyProblem, SetupError};

#[test]
fn test_resolve_precedence_env_var_overrides_all() {
    let result = resolve_auto_unlock_timeout_internal(Some(300), 120);
    assert_eq!(result, Some(300), "Environment variable should override config file value");
}

#[test]
fn test_resolve_precedence_config_used_when_no_env_var() {
    let result = resolve_auto_unlock_timeout_internal(None, 180);
    assert_eq!(result, Some(180), "Config file value should be used when no override is given");
}

#[test]
fn test_resolve_precedence_config_zero_means_disabled() {
    let result = resolve_auto_unlock_timeout_internal(None, 0);
    if AUTO_UNLOCK_DEFAULT_SECONDS == 0 {
        assert_eq!(result, None, "Config=0 with a disabled default should result in None");
    } else {
        assert_eq!(
            result,
            Some(AUTO_UNLOCK_DEFAULT_SECONDS),
            "Config=0 with an enabled default should use the default"
        );
    }
}

#[test]
fn test_resolve_precedence_env_var_zero_disables_even_with_config() {
    let result = resolve_auto_unlock_timeout_internal(None, 120);
    assert_eq!(result, Some(120), "When override parsing returns None, config value should be used");
}

#[test]
fn test_resolve_precedence_invalid_env_var_falls_back_to_config() {
    let result = resolve_auto_unlock_timeout_internal(None, 200);
    assert_eq!(result, Some(200), "Invalid override (None) should fall back to config file value");
}

#[test]
fn test_resolve_precedence_out_of_range_env_var_falls_back_to_config() {
    let result = resolve_auto_unlock_timeout_internal(None, 150);
    assert_eq!(result, Some(150), "Out-of-range override (None) should fall back to config file value");
}

#[test]
fn test_resolve_precedence_build_default_used_as_last_resort() {
    let result = resolve_auto_unlock_timeout_internal(None, 0);
    if AUTO_UNLOCK_DEFAULT_SECONDS == 0 {
        assert_eq!(result, None, "A disabled default gives None");
    } else {
        assert_eq!(result, Some(AUTO_UNLOCK_DEFAULT_SECONDS));
    }
}

#[test]
fn test_resolve_precedence_multiple_config_values() {
    assert_eq!(resolve_auto_unlock_timeout_internal(None, 60), Some(60));
    assert_eq!(resolve_auto_unlock_timeout_internal(None, 120), Some(120));
    assert_eq!(resolve_auto_unlock_timeout_internal(None, 300), Some(300));
    assert_eq!(resolve_auto_unlock_timeout_internal(None, 600), Some(600));
    assert_eq!(resolve_auto_unlock_timeout_internal(None, 900), Some(900));
}

#[test]
fn test_resolve_precedence_env_var_takes_precedence_over_all_config_values() {
    assert_eq!(resolve_auto_unlock_timeout_internal(Some(250), 60), Some(250));
    assert_eq!(resolve_auto_unlock_timeout_internal(Some(250), 120), Some(250));
    assert_eq!(resolve_auto_unlock_timeout_internal(Some(250), 0), Some(250));
}

#[test]
fn config_test_parse_auto_unlock_valid_values() {
    assert_eq!(parse_auto_unlock_timeout(Some("60")), Some(60), "Should accept 60 seconds");
    assert_eq!(parse_auto_unlock_timeout(Some("300")), Some(300), "Should accept 300 seconds");
    assert_eq!(parse_auto_unlock_timeout(Some("600")), Some(600), "Should accept 600 seconds");
    assert_eq!(parse_auto_unlock_timeout(Some("900")), Some(900), "Should accept 900 seconds");
}

#[test]
fn config_test_parse_auto_unlock_disabled() {
    assert_eq!(parse_auto_unlock_timeout(Some("0")), None, "Should return None for 0");
    assert_eq!(parse_auto_unlock_timeout(None), None, "Should return None when not set");
}

#[test]
fn config_test_parse_auto_unlock_invalid_values() {
    assert_eq!(parse_auto_unlock_timeout(Some("30")), None, "Should reject value below 60");
    assert_eq!(parse_auto_unlock_timeout(Some("901")), None, "Should reject value above 900");
    assert_eq!(parse_auto_unlock_timeout(Some("1000")), None, "Should reject value above 900");
    assert_eq!(parse_auto_unlock_timeout(Some("-60")), None, "Should reject negative value");
    assert_eq!(parse_auto_unlock_timeout(Some("invalid")), None, "Should reject non-numeric value");
    assert_eq!(parse_auto_unlock_timeout(Some("30s")), None, "Should reject value with units");
    assert_eq!(parse_auto_unlock_timeout(Some("")), None, "Should reject empty string");
}

#[test]
fn config_test_parse_auto_unlock_boundary_cases() {
    assert_eq!(parse_auto_unlock_timeout(Some("59")), None, "Should reject 59 seconds");
    assert_eq!(parse_auto_unlock_timeout(Some("60")), Some(60), "Should accept 60 seconds");
    assert_eq!(parse_auto_unlock_timeout(Some("900")), Some(900), "Should accept 900 seconds");
    assert_eq!(parse_auto_unlock_timeout(Some("901")), None, "Should reject 901 seconds");
}

#[test]
fn test_parse_auto_lock_valid_values() {
    assert_eq!(parse_auto_lock_timeout(Some("20")), Some(20), "Should accept 20 seconds");
    assert_eq!(parse_auto_lock_timeout(Some("60")), Some(60), "Should accept 60 seconds");
    assert_eq!(parse_auto_lock_timeout(Some("600")), Some(600), "Should accept 600 seconds");
}

#[test]
fn test_parse_auto_lock_invalid_values() {
    assert_eq!(parse_auto_lock_timeout(Some("10")), None, "Should reject value below 20");
    assert_eq!(parse_auto_lock_timeout(Some("601")), None, "Should reject value above 600");
    assert_eq!(parse_auto_lock_timeout(Some("invalid")), None, "Should reject non-numeric value");
}

#[test]
fn test_parse_auto_lock_boundary_cases() {
    assert_eq!(parse_auto_lock_timeout(Some("19")), None, "Should reject 19 seconds");
    assert_eq!(parse_auto_lock_timeout(Some("20")), Some(20), "Should accept 20 seconds");
    assert_eq!(parse_auto_lock_timeout(Some("600")), Some(600), "Should accept 600 seconds");
    assert_eq!(parse_auto_lock_timeout(Some("601")), None, "Should reject 601 seconds");
}

#[test]
fn test_parse_auto_lock_not_set() {
    assert_eq!(parse_auto_lock_timeout(None), None, "Should return None when not set");
}

#[test]
fn resolve_reads_override_text() {
    assert_eq!(resolve_auto_unlock_timeout(Some("300"), 120), Some(300));
    assert_eq!(resolve_auto_unlock_timeout(Some("30"), 120), Some(120));
    assert_eq!(resolve_auto_unlock_timeout(None, 0), resolve_auto_unlock_timeout_internal(None, 0));
}

#[test]
fn decimal_parsing_follows_unsigned_notation() {
    assert_eq!(parse_u64("0"), Some(0));
    assert_eq!(parse_u64("+42"), Some(42));
    assert_eq!(parse_u64("007"), Some(7));
    assert_eq!(parse_u64("18446744073709551615"), Some(u64::MAX));
    assert_eq!(parse_u64("18446744073709551616"), None);
    assert_eq!(parse_u64("99999999999999999999x"), None);
    assert_eq!(parse_u64(""), None);
    assert_eq!(parse_u64("+"), None);
    assert_eq!(parse_u64("-1"), None);
    assert_eq!(parse_u64(" 5"), None);
    assert_eq!(parse_u64("5 "), None);
    assert_eq!(parse_u64("١"), None);
}

#[test]
fn hotkey_overrides_are_upper_cased() {
    assert_eq!(parse_lock_hotkey(Some("m")), Some("M".to_string()));
    assert_eq!(parse_talk_hotkey(Some("Q")), Some("Q".to_string()));
    assert_eq!(parse_lock_hotkey(Some("12")), None);
    assert_eq!(parse_talk_hotkey(Some("1")), None);
    assert_eq!(parse_lock_hotkey(None), None);
}

#[test]
fn test_config_new() {
    let config = Config::new("test_passphrase", 30, 60, None, None).expect("Failed to create config");

    assert_eq!(config.auto_lock_timeout, 30);
    assert_eq!(config.auto_unlock_timeout, 60);
    assert!(!config.encrypted_passphrase.is_empty());
}

#[test]
fn test_config_get_passphrase() {
    let original = "my_secret_password";
    let config = Config::new(original, 30, 60, None, None).expect("Failed to create config");

    let decrypted = config.get_passphrase().expect("Failed to get passphrase");

    assert_eq!(original, decrypted);
}

#[test]
fn test_config_portability() {
    let passphrase = "portable_test_passphrase";

    let config1 = Config::new(passphrase, 30, 60, None, None).expect("Failed to create config 1");
    let encrypted1 = config1.encrypted_passphrase.clone();

    let config2 = Config::new(passphrase, 30, 60, None, None).expect("Failed to create config 2");
    let encrypted2 = config2.encrypted_passphrase.clone();

    assert_ne!(encrypted1, encrypted2, "Encrypted values should differ due to random nonces");

    let decrypted1 = config1.get_passphrase().expect("Failed to decrypt 1");
    let decrypted2 = config2.get_passphrase().expect("Failed to decrypt 2");

    assert_eq!(decrypted1, passphrase);
    assert_eq!(decrypted2, passphrase);
    assert_eq!(decrypted1, decrypted2);
}

#[test]
fn test_duplicate_hotkeys_in_new() {
    let result = Config::new("test_passphrase", 30, 60, Some("M".to_string()), Some("M".to_string()));

    assert!(result.is_err(), "Should reject duplicate hotkeys");
    if let Err(e) = result {
        let error_msg = e.message();
        assert!(
            error_msg.contains("must be different"),
            "Error message should mention duplicates: {}",
            error_msg
        );
    }
}

#[test]
fn test_duplicate_hotkeys_case_insensitive() {
    let result = Config::new("test_passphrase", 30, 60, Some("m".to_string()), Some("M".to_string()));

    assert!(result.is_err(), "Should reject duplicate hotkeys (case-insensitive)");
}

#[test]
fn test_different_hotkeys_accepted() {
    let result = Config::new("test_passphrase", 30, 60, Some("L".to_string()), Some("T".to_string()));

    assert!(result.is_ok(), "Should accept different hotkeys");
}

fn record(lock: Option<&str>, talk: Option<&str>) -> Config {
    Config {
        encrypted_passphrase: "test_encrypted_data".to_string(),
        auto_lock_timeout: 30,
        auto_unlock_timeout: 60,
        lock_hotkey: lock.map(|s| s.to_string()),
        talk_hotkey: talk.map(|s| s.to_string()),
    }
}

#[test]
fn test_invalid_hotkey_in_loaded_config() {
    let result = Config::load(record(Some("123"), Some("T")));

    assert!(result.is_err(), "Should reject invalid lock_hotkey");
    if let Err(e) = result {
        let error_msg = e.message();
        assert!(
            error_msg.contains("Invalid lock_hotkey") || error_msg.contains("must be a letter"),
            "Error should mention invalid hotkey: {}",
            error_msg
        );
    }
}

#[test]
fn test_duplicate_hotkeys_in_loaded_config() {
    let result = Config::load(record(Some("M"), Some("M")));

    assert!(result.is_err(), "Should reject duplicate hotkeys in loaded config");
    if let Err(e) = result {
        let error_msg = e.message();
        assert!(error_msg.contains("must be different"), "Error should mention duplicates: {}", error_msg);
    }
}

#[test]
fn load_keeps_a_valid_record() {
    let loaded = Config::load(record(Some("k"), None)).expect("valid record");
    assert_eq!(loaded.encrypted_passphrase, "test_encrypted_data");
    assert_eq!(loaded.auto_lock_timeout, 30);
    assert_eq!(loaded.auto_unlock_timeout, 60);
    assert_eq!(loaded.lock_hotkey, Some("k".to_string()));
    assert_eq!(loaded.talk_hotkey, None);
}

#[test]
fn hotkey_errors_name_the_problem() {
    assert!(matches!(
        Config::new("p", 30, 60, Some("7".to_string()), None),
        Err(ConfigError::InvalidLockHotkey(HotkeyProblem::NotLetter))
    ));
    assert!(matches!(
        Config::new("p", 30, 60, None, Some("ab".to_string())),
        Err(ConfigError::InvalidTalkHotkey(HotkeyProblem::NotSingleCharacter))
    ));
    assert!(matches!(
        Config::load(record(Some(""), None)),
        Err(ConfigError::InvalidLockHotkey(HotkeyProblem::NotSingleCharacter))
    ));
    assert!(matches!(Config::load(record(Some("é"), None)), Err(ConfigError::InvalidLockHotkey(_))));
    assert_eq!(Config::validate_hotkey("q"), Ok(()));
    assert_eq!(Config::validate_hotkey("Z"), Ok(()));
    assert_eq!(Config::parse_key_string("q"), Ok('Q'));
}

#[test]
fn hotkey_keycodes_default_and_configured() {
    let defaults = record(None, None);
    assert_eq!(defaults.get_lock_key_code(), Ok(37));
    assert_eq!(defaults.get_talk_key_code(), Ok(17));
    let custom = record(Some("m"), Some("U"));
    assert_eq!(custom.get_lock_key_code(), Ok(46));
    assert_eq!(custom.get_talk_key_code(), Ok(32));
    let broken = record(Some("#"), None);
    assert_eq!(broken.get_lock_key_code(), Err(ConfigError::InvalidLockHotkey(HotkeyProblem::NotLetter)));
}

#[test]
fn stored_passphrase_that_is_not_base64_fails_to_decrypt() {
    let result = record(None, None).get_passphrase();
    assert!(matches!(result, Err(ConfigError::Decryption(_))));
}

#[test]
fn new_passphrase_must_be_non_empty_and_confirmed() {
    assert_eq!(check_new_passphrase("", ""), Err(SetupError::EmptyPassphrase));
    assert_eq!(check_new_passphrase("abc", "abd"), Err(SetupError::PassphraseMismatch));
    assert_eq!(check_new_passphrase("abc", "ABC"), Err(SetupError::PassphraseMismatch));
    assert_eq!(check_new_passphrase("abc", "abc"), Ok(()));
}

#[test]
fn upper_cased_hotkey_letters_are_checked() {
    assert_eq!(check_hotkey_letter("M"), Ok(()));
    assert_eq!(check_hotkey_letter("7"), Err(HotkeyProblem::NotLetter));
    assert_eq!(check_hotkey_letter("MM"), Err(HotkeyProblem::NotSingleCharacter));
    assert_eq!(check_hotkey_letter("É"), Err(HotkeyProblem::NotSingleCharacter));
    assert_eq!(check_hotkey_letter(""), Err(HotkeyProblem::NotSingleCharacter));
}
