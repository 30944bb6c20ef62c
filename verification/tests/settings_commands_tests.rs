use hotkey_overlay::conflict::validate_no_duplicate_shortcut;
use hotkey_overlay::hotkey::HotkeyConfig;
use hotkey_overlay::settings::AppSettings;

fn hotkey(key: &str, modifiers: &[&str]) -> HotkeyConfig {
    HotkeyConfig {
        key: key.to_string(),
        modifiers: modifiers.iter().map(|m| m.to_string()).collect(),
    }
}

#[test]
fn test_validate_no_duplicate_allows_unique_shortcut() {
    let settings = AppSettings::default();
    let candidate = hotkey("F1", &["Ctrl"]);
    assert!(validate_no_duplicate_shortcut(&candidate, &settings, "toggle").is_ok());
}

#[test]
fn test_validate_no_duplicate_rejects_duplicate_with_hold() {
    let settings = AppSettings::default();
    let candidate = settings.hold_hotkey.clone();
    let result = validate_no_duplicate_shortcut(&candidate, &settings, "toggle");
    assert!(result.is_err());
    assert!(result.unwrap_err().contains("hold"));
}

#[test]
fn test_validate_no_duplicate_rejects_duplicate_with_toggle() {
    let settings = AppSettings::default();
    let candidate = settings.toggle_hotkey.clone();
    let result = validate_no_duplicate_shortcut(&candidate, &settings, "hold");
    assert!(result.is_err());
    assert!(result.unwrap_err().contains("toggle"));
}

#[test]
fn test_validate_no_duplicate_rejects_duplicate_with_paste_last() {
    let settings = AppSettings::default();
    let candidate = settings.paste_last_hotkey.clone();
    let result = validate_no_duplicate_shortcut(&candidate, &settings, "toggle");
    assert!(result.is_err());
    assert!(result.unwrap_err().contains("paste last"));
}

#[test]
fn test_validate_no_duplicate_excludes_own_type() {
    let settings = AppSettings::default();
    let candidate = settings.toggle_hotkey.clone();
    assert!(validate_no_duplicate_shortcut(&candidate, &settings, "toggle").is_ok());
}

#[test]
fn test_validate_no_duplicate_excludes_hold_type() {
    let settings = AppSettings::default();
    let candidate = settings.hold_hotkey.clone();
    assert!(validate_no_duplicate_shortcut(&candidate, &settings, "hold").is_ok());
}

#[test]
fn test_validate_no_duplicate_excludes_paste_last_type() {
    let settings = AppSettings::default();
    let candidate = settings.paste_last_hotkey.clone();
    assert!(validate_no_duplicate_shortcut(&candidate, &settings, "paste_last").is_ok());
}

#[test]
fn test_validate_no_duplicate_case_insensitive_comparison() {
    // the candidate differs from the default toggle hotkey only in case
    let settings = AppSettings::default();
    let candidate = hotkey("space", &["CTRL", "ALT"]);
    let result = validate_no_duplicate_shortcut(&candidate, &settings, "hold");
    assert!(result.is_err());
}

#[test]
fn test_validate_conflict_message_exact() {
    let settings = AppSettings::default();
    let candidate = settings.hold_hotkey.clone();
    let result = validate_no_duplicate_shortcut(&candidate, &settings, "toggle");
    assert_eq!(
        result.unwrap_err(),
        "This shortcut is already used for the hold hotkey"
    );
}
