use wisper::injection::{
    accessibility_probe_script, check_accessibility_permission, delete_preceding_char,
    get_platform, inject_method, key_name_to_keycode, key_tap_script, keycode_for_lower,
    paste_outcome, paste_script, replay_shortcut_key, InjectMethod, Platform,
};

#[test]
fn keycodes_by_name() {
    assert_eq!(key_name_to_keycode("Space"), Some(49));
    assert_eq!(key_name_to_keycode("TAB"), Some(48));
    assert_eq!(key_name_to_keycode("Return"), Some(36));
    assert_eq!(key_name_to_keycode("enter"), Some(36));
    assert_eq!(key_name_to_keycode("A"), Some(0));
    assert_eq!(key_name_to_keycode("z"), Some(6));
    assert_eq!(key_name_to_keycode("Q"), Some(12));
    assert_eq!(key_name_to_keycode("Shift"), None);
    assert_eq!(key_name_to_keycode("F1"), None);
    assert_eq!(key_name_to_keycode(""), None);
    assert_eq!(keycode_for_lower("Space"), None);
}

#[test]
fn letter_keycodes_match_table() {
    let table = [
        ('a', 0), ('b', 11), ('c', 8), ('d', 2), ('e', 14), ('f', 3), ('g', 5), ('h', 4),
        ('i', 34), ('j', 38), ('k', 40), ('l', 37), ('m', 46), ('n', 45), ('o', 31), ('p', 35),
        ('q', 12), ('r', 15), ('s', 1), ('t', 17), ('u', 32), ('v', 9), ('w', 13), ('x', 7),
        ('y', 16), ('z', 6),
    ];
    for (c, code) in table {
        assert_eq!(key_name_to_keycode(&c.to_string()), Some(code));
    }
}

#[test]
fn replay_only_single_keys_on_macos() {
    assert_eq!(replay_shortcut_key("Space", Platform::MacOs), Some(49));
    assert_eq!(replay_shortcut_key("Alt+Space", Platform::MacOs), None);
    assert_eq!(replay_shortcut_key("Space", Platform::Windows), None);
    assert_eq!(replay_shortcut_key("Space", Platform::Other), None);
    assert_eq!(replay_shortcut_key("Escape", Platform::MacOs), None);
}

#[test]
fn scripts() {
    assert_eq!(key_tap_script(51), "tell application \"System Events\" to key code 51");
    assert_eq!(key_tap_script(0), "tell application \"System Events\" to key code 0");
    assert_eq!(
        delete_preceding_char(Platform::MacOs).unwrap(),
        "tell application \"System Events\" to key code 51"
    );
    assert!(delete_preceding_char(Platform::Windows).is_none());
    assert_eq!(
        paste_script(),
        "tell application \"System Events\" to keystroke \"v\" using command down"
    );
    assert_eq!(
        accessibility_probe_script(),
        "tell application \"System Events\" to get name of first process"
    );
}

#[test]
fn platforms() {
    assert_eq!(get_platform(Platform::MacOs), "macos");
    assert_eq!(get_platform(Platform::Windows), "windows");
    assert_eq!(get_platform(Platform::Other), "other");
    assert!(check_accessibility_permission(Platform::MacOs, true));
    assert!(!check_accessibility_permission(Platform::MacOs, false));
    assert!(check_accessibility_permission(Platform::Windows, false));
    assert!(!check_accessibility_permission(Platform::Other, true));
    assert_eq!(inject_method(Platform::MacOs).ok(), Some(InjectMethod::AppleScriptPaste));
    assert_eq!(inject_method(Platform::Windows).ok(), Some(InjectMethod::ClipboardSendInput));
    assert_eq!(
        inject_method(Platform::Other).err().unwrap(),
        "Text injection not supported on this platform"
    );
}

#[test]
fn paste_outcomes() {
    assert!(paste_outcome(true).is_ok());
    assert_eq!(
        paste_outcome(false).err().unwrap(),
        "osascript returned non-zero exit code. Accessibility permission may be required."
    );
}

#[test]
fn key_names_ignore_case() {
    for k in ["Space", "sPaCe", "TAB", "Return", "ENTER", "A", "q", "Shift", "İ", "Σ", "F12", ""] {
        assert_eq!(key_name_to_keycode(k), key_name_to_keycode(&k.to_lowercase()));
    }
}

#[test]
fn lowercasing_twice_changes_nothing() {
    let mut c: u32 = 0;
    while c <= 0x10FFFF {
        if let Some(ch) = char::from_u32(c) {
            let once = ch.to_string().to_lowercase();
            assert_eq!(once.to_lowercase(), once, "U+{:04X}", c);
        }
        c += 1;
    }
    for s in ["ΟΔΟΣ ΣΑΣ", "Straße İstanbul", "ǅemal ǈ", "MIXED case Σ."] {
        let once = s.to_lowercase();
        assert_eq!(once.to_lowercase(), once);
    }
}

#[test]
fn only_single_letters_and_named_keys_are_replayed() {
    let named = ["space", "tab", "return", "enter"];
    let mut c: u32 = 0;
    while c < 0x250 {
        if let Some(ch) = char::from_u32(c) {
            let expected = ch.is_ascii_lowercase();
            assert_eq!(keycode_for_lower(&ch.to_string()).is_some(), expected, "U+{:04X}", c);
        }
        c += 1;
    }
    for k in named {
        assert!(keycode_for_lower(k).is_some());
    }
    for k in ["esc", "spaces", "ab", "shift", "Space"] {
        assert!(keycode_for_lower(k).is_none());
    }
}

#[test]
fn key_codes_are_distinct_but_for_return_and_enter() {
    let mut names: Vec<String> = vec!["space".to_string(), "tab".to_string(), "return".to_string(), "enter".to_string()];
    for ch in 'a'..='z' {
        names.push(ch.to_string());
    }
    for a in &names {
        for b in &names {
            let same = keycode_for_lower(a) == keycode_for_lower(b);
            let both_return = (a == "return" || a == "enter") && (b == "return" || b == "enter");
            assert_eq!(same, a == b || both_return, "{} {}", a, b);
        }
    }
}
