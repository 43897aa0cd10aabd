use hugo_bridge::keyboard::{KeyPress, VirtualKeyboard};
use hugo_bridge::keys::{parse_key_name, resolve_keymap, KeyCode};
use hugo_bridge::strmap::StrMap;

fn map_of(pairs: &[(&str, &str)]) -> StrMap<String> {
    let mut m = StrMap::new();
    for (k, v) in pairs {
        m.insert(k.to_string(), v.to_string());
    }
    m
}

#[test]
fn strmap_insert_get_and_replace() {
    let mut m: StrMap<String> = StrMap::new();
    assert!(m.is_empty());
    assert_eq!(m.get("a"), None);
    m.insert("a".to_string(), "1".to_string());
    m.insert("b".to_string(), "2".to_string());
    m.insert("a".to_string(), "3".to_string());
    assert!(!m.is_empty());
    assert_eq!(m.get("a").map(|s| s.as_str()), Some("3"));
    assert_eq!(m.get("b").map(|s| s.as_str()), Some("2"));
    assert!(m.contains_key("b"));
    assert!(!m.contains_key("c"));
    // The order of the keys is not stated: compare them sorted.
    let mut keys = m.keys();
    keys.sort();
    assert_eq!(keys, vec!["a".to_string(), "b".to_string()]);
    let c = m.clone();
    assert_eq!(c.get("a").map(|s| s.as_str()), Some("3"));
}

#[test]
fn key_names_resolve() {
    let table = [
        ("Up", KeyCode::Up),
        ("Down", KeyCode::Down),
        ("Left", KeyCode::Left),
        ("Right", KeyCode::Right),
        ("Space", KeyCode::Space),
        ("Enter", KeyCode::Enter),
        ("Esc", KeyCode::Esc),
        ("Escape", KeyCode::Esc),
        ("Tab", KeyCode::Tab),
        ("Backspace", KeyCode::BackSpace),
        ("LeftShift", KeyCode::LeftShift),
        ("RightShift", KeyCode::RightShift),
        ("LeftCtrl", KeyCode::LeftControl),
        ("RightCtrl", KeyCode::RightControl),
        ("LeftAlt", KeyCode::LeftAlt),
        ("RightAlt", KeyCode::RightAlt),
        ("A", KeyCode::A),
        ("M", KeyCode::M),
        ("Z", KeyCode::Z),
        ("F1", KeyCode::F1),
        ("F10", KeyCode::F10),
        ("F12", KeyCode::F12),
    ];
    for (name, key) in table {
        assert_eq!(parse_key_name(name), Some(key), "{}", name);
    }
}

#[test]
fn unknown_key_names_give_none() {
    for name in ["up", "ESC", "F13", "", " Up", "LeftControl", "a", "Shift"] {
        assert_eq!(parse_key_name(name), None, "{:?}", name);
    }
}

#[test]
fn resolve_keymap_drops_unknown_names() {
    let sym = map_of(&[("2", "Up"), ("4", "Bogus"), ("#", "Enter")]);
    let r = resolve_keymap(&sym);
    assert_eq!(r.get("2"), Some(&KeyCode::Up));
    assert_eq!(r.get("#"), Some(&KeyCode::Enter));
    assert_eq!(r.get("4"), None);
    assert_eq!(r.keys().len(), 2);
}

#[test]
fn keyboard_presses_mapped_digits_only() {
    let sym = map_of(&[("5", "Space"), ("9", "Nope")]);
    let kb = VirtualKeyboard::new(&sym, 80);
    assert_eq!(kb.press_dtmf("5"), Some(KeyPress { key: KeyCode::Space, hold_ms: 80 }));
    assert_eq!(kb.press_dtmf("9"), None);
    assert_eq!(kb.press_dtmf("1"), None);
}

#[test]
fn keyboard_hot_updates() {
    let mut kb = VirtualKeyboard::new(&map_of(&[("2", "Up")]), 80);
    kb.update_keymap(&map_of(&[("2", "Down"), ("3", "F5")]));
    assert_eq!(kb.press_dtmf("2"), Some(KeyPress { key: KeyCode::Down, hold_ms: 80 }));
    assert_eq!(kb.press_dtmf("3"), Some(KeyPress { key: KeyCode::F5, hold_ms: 80 }));
    kb.set_press_duration(150);
    assert_eq!(kb.press_dtmf("2"), Some(KeyPress { key: KeyCode::Down, hold_ms: 150 }));
}
