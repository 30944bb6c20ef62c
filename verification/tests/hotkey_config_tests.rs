use hotkey_overlay::hotkey::HotkeyConfig;

fn hotkey(key: &str, modifiers: &[&str]) -> HotkeyConfig {
    HotkeyConfig {
        key: key.to_string(),
        modifiers: modifiers.iter().map(|m| m.to_string()).collect(),
    }
}

#[test]
fn test_to_shortcut_string_single_modifier() {
    let h = hotkey("Space", &["Ctrl"]);
    assert_eq!(h.to_shortcut_string(), "ctrl+Space");
}

#[test]
fn test_to_shortcut_string_multiple_modifiers() {
    let h = hotkey("Space", &["Ctrl", "Alt"]);
    assert_eq!(h.to_shortcut_string(), "ctrl+alt+Space");
}

#[test]
fn test_to_shortcut_string_preserves_key_case() {
    let h = hotkey("Backquote", &["CTRL", "ALT"]);
    assert_eq!(h.to_shortcut_string(), "ctrl+alt+Backquote");
}

#[test]
fn test_is_same_as_identical_hotkeys() {
    let a = hotkey("Space", &["Ctrl", "Alt"]);
    let b = hotkey("Space", &["Ctrl", "Alt"]);
    assert!(a.is_same_as(&b));
}

#[test]
fn test_is_same_as_different_modifier_order() {
    let a = hotkey("Space", &["Ctrl", "Alt"]);
    let b = hotkey("Space", &["Alt", "Ctrl"]);
    assert!(a.is_same_as(&b));
}

#[test]
fn test_is_same_as_case_insensitive() {
    let a = hotkey("space", &["ctrl"]);
    let b = hotkey("Space", &["Ctrl"]);
    assert!(a.is_same_as(&b));
}

#[test]
fn test_is_same_as_different_keys() {
    let a = hotkey("Space", &["Ctrl"]);
    let b = hotkey("Enter", &["Ctrl"]);
    assert!(!a.is_same_as(&b));
}

#[test]
fn test_is_same_as_different_modifiers() {
    let a = hotkey("Space", &["Ctrl"]);
    let b = hotkey("Space", &["Alt"]);
    assert!(!a.is_same_as(&b));
}

#[test]
fn test_is_same_as_extra_modifier() {
    let a = hotkey("Space", &["Ctrl"]);
    let b = hotkey("Space", &["Ctrl", "Alt"]);
    assert!(!a.is_same_as(&b));
}

#[test]
fn test_is_same_as_missing_modifier() {
    let a = hotkey("Space", &["Ctrl", "Alt"]);
    let b = hotkey("Space", &["Ctrl"]);
    assert!(!a.is_same_as(&b));
}

#[test]
fn test_is_same_as_duplicate_modifiers_collapse() {
    let a = hotkey("Space", &["Ctrl", "Ctrl"]);
    let b = hotkey("Space", &["Ctrl"]);
    assert!(a.is_same_as(&b));
}

#[test]
fn test_is_same_as_is_symmetric() {
    let a = hotkey("Space", &["CTRL", "alt"]);
    let b = hotkey("SPACE", &["Alt", "Ctrl"]);
    assert!(a.is_same_as(&b));
    assert!(b.is_same_as(&a));
}
