use hotkey_overlay::conflict::{update_hotkey_with_validation, HotkeySlot};
use hotkey_overlay::hotkey::HotkeyConfig;
use hotkey_overlay::settings::{AppSettings, SettingsManager};
use hotkey_overlay::state::AppState;

fn hotkey(key: &str, modifiers: &[&str]) -> HotkeyConfig {
    HotkeyConfig {
        key: key.to_string(),
        modifiers: modifiers.iter().map(|m| m.to_string()).collect(),
    }
}

#[test]
fn test_default_settings_hotkeys() {
    let settings = AppSettings::default();
    assert_eq!(settings.toggle_hotkey.to_shortcut_string(), "ctrl+alt+Space");
    assert_eq!(settings.hold_hotkey.to_shortcut_string(), "ctrl+Space");
    assert_eq!(settings.paste_last_hotkey.to_shortcut_string(), "ctrl+alt+V");
    assert!(settings.selected_mic.is_none());
    assert!(settings.sound_enabled);
    assert!(!settings.auto_mute_audio);
}

#[test]
fn test_default_hotkeys_do_not_collide() {
    let settings = AppSettings::default();
    assert!(!settings.toggle_hotkey.is_same_as(&settings.hold_hotkey));
    assert!(!settings.toggle_hotkey.is_same_as(&settings.paste_last_hotkey));
    assert!(!settings.hold_hotkey.is_same_as(&settings.paste_last_hotkey));
}

#[test]
fn test_manager_get_and_update() {
    let mut manager = SettingsManager::new(AppSettings::default());
    assert!(manager.get().sound_enabled);
    let mut replacement = AppSettings::default();
    replacement.sound_enabled = false;
    replacement.llm_provider = Some("local".to_string());
    manager.update(replacement);
    assert!(!manager.get().sound_enabled);
    assert_eq!(manager.get().llm_provider.as_deref(), Some("local"));
}

#[test]
fn test_manager_scalar_updates() {
    let mut manager = SettingsManager::new(AppSettings::default());
    manager.update_selected_mic(Some("mic-2".to_string()));
    manager.update_sound_enabled(false);
    manager.update_stt_provider(Some("whisper".to_string()));
    manager.update_llm_provider(Some("llama".to_string()));
    manager.update_auto_mute_audio(true);
    manager.update_stt_timeout(Some(30_000));
    let settings = manager.get();
    assert_eq!(settings.selected_mic.as_deref(), Some("mic-2"));
    assert!(!settings.sound_enabled);
    assert_eq!(settings.stt_provider.as_deref(), Some("whisper"));
    assert_eq!(settings.llm_provider.as_deref(), Some("llama"));
    assert!(settings.auto_mute_audio);
    assert_eq!(settings.stt_timeout_ms, Some(30_000));
    assert_eq!(settings.toggle_hotkey.to_shortcut_string(), "ctrl+alt+Space");
}

#[test]
fn test_manager_raw_hotkey_updates_skip_validation() {
    let mut manager = SettingsManager::new(AppSettings::default());
    let duplicate = manager.get().hold_hotkey.clone();
    manager.update_toggle_hotkey(duplicate);
    assert!(manager
        .get()
        .toggle_hotkey
        .is_same_as(&manager.get().hold_hotkey));
}

#[test]
fn test_reset_hotkeys_to_defaults() {
    let mut manager = SettingsManager::new(AppSettings::default());
    manager.update_toggle_hotkey(hotkey("Q", &["Alt"]));
    manager.update_sound_enabled(false);
    let restart = manager.reset_hotkeys_to_defaults();
    assert!(restart);
    assert_eq!(manager.get().toggle_hotkey.to_shortcut_string(), "ctrl+alt+Space");
    assert_eq!(manager.get().hold_hotkey.to_shortcut_string(), "ctrl+Space");
    assert_eq!(manager.get().paste_last_hotkey.to_shortcut_string(), "ctrl+alt+V");
    assert!(!manager.get().sound_enabled);
}

#[test]
fn test_update_with_validation_success() {
    let mut manager = SettingsManager::new(AppSettings::default());
    let candidate = hotkey("B", &["Ctrl", "Shift"]);
    let result = update_hotkey_with_validation(&mut manager, candidate, HotkeySlot::Hold);
    assert!(result.is_ok());
    assert_eq!(manager.get().hold_hotkey.to_shortcut_string(), "ctrl+shift+B");
    assert_eq!(manager.get().toggle_hotkey.to_shortcut_string(), "ctrl+alt+Space");
}

#[test]
fn test_update_with_validation_rejects_conflict() {
    let mut manager = SettingsManager::new(AppSettings::default());
    let candidate = manager.get().toggle_hotkey.clone();
    let result = update_hotkey_with_validation(&mut manager, candidate, HotkeySlot::Hold);
    assert!(result.unwrap_err().contains("toggle"));
    assert_eq!(manager.get().hold_hotkey.to_shortcut_string(), "ctrl+Space");
}

#[test]
fn test_update_with_validation_allows_same_slot_value() {
    let mut manager = SettingsManager::new(AppSettings::default());
    let candidate = hotkey("space", &["ctrl"]);
    let result = update_hotkey_with_validation(&mut manager, candidate, HotkeySlot::Hold);
    assert!(result.is_ok());
    assert_eq!(manager.get().hold_hotkey.to_shortcut_string(), "ctrl+space");
}

#[test]
fn test_update_with_validation_rejects_unknown_key() {
    let mut manager = SettingsManager::new(AppSettings::default());
    let candidate = hotkey("NotAKey", &["Ctrl"]);
    let result = update_hotkey_with_validation(&mut manager, candidate, HotkeySlot::Toggle);
    assert_eq!(result.unwrap_err(), "shortcut has an unrecognized key");
    assert_eq!(manager.get().toggle_hotkey.to_shortcut_string(), "ctrl+alt+Space");
}

#[test]
fn test_update_with_validation_rejects_unknown_modifier() {
    let mut manager = SettingsManager::new(AppSettings::default());
    let candidate = hotkey("B", &["Hyper"]);
    let result = update_hotkey_with_validation(&mut manager, candidate, HotkeySlot::Toggle);
    assert_eq!(result.unwrap_err(), "shortcut has an unrecognized modifier");
}

#[test]
fn test_to_shortcut_parses_defaults() {
    let parsed = HotkeyConfig::default_toggle().to_shortcut().unwrap();
    assert!(parsed.control);
    assert!(parsed.alt);
    assert!(!parsed.shift);
    assert!(!parsed.super_key);
    assert_eq!(parsed.key, "space");
}

#[test]
fn test_to_shortcut_maps_vendor_modifiers() {
    let parsed = hotkey("a", &["Cmd", "WIN", "meta"]).to_shortcut().unwrap();
    assert!(parsed.super_key);
    assert!(!parsed.control);
    assert_eq!(parsed.key, "a");
}

#[test]
fn test_to_shortcut_accepts_function_keys() {
    let parsed = hotkey("F1", &["Ctrl"]).to_shortcut().unwrap();
    assert!(parsed.control);
    assert_eq!(parsed.key, "f1");
    assert!(hotkey("f12", &["Alt"]).to_shortcut().is_ok());
    assert!(hotkey("F13", &["Ctrl"]).to_shortcut().is_err());
}

#[test]
fn test_app_state_default() {
    let state = AppState::default();
    assert!(!state.is_recording);
    assert!(!state.ptt_key_held);
    assert!(!state.paste_key_held);
}
