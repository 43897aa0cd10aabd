use hugo_bridge::config::{
    default_event_name, default_host, default_key_field, default_keymap, default_port,
    default_press_ms, BridgeConfig, Config, RawAmiConfig, RawBridgeConfig, RawConfig,
};
use hugo_bridge::keys::{resolve_keymap, KeyCode};
use hugo_bridge::strmap::StrMap;

fn raw_ami() -> RawAmiConfig {
    RawAmiConfig {
        host: None,
        port: None,
        username: "hugo".to_string(),
        secret: "s3cret".to_string(),
    }
}

#[test]
fn default_values() {
    assert_eq!(default_host(), "127.0.0.1");
    assert_eq!(default_port(), 5038);
    assert_eq!(default_press_ms(), 80);
    assert_eq!(default_event_name(), "HugoKey");
    assert_eq!(default_key_field(), "Key");
    let b = BridgeConfig::default();
    assert_eq!(b.press_duration_ms, 80);
    assert_eq!(b.event_name, "HugoKey");
    assert_eq!(b.key_field, "Key");
}

#[test]
fn default_keymap_matches_documented_table() {
    let m = default_keymap();
    let expected = [
        ("2", "Up"),
        ("4", "Left"),
        ("6", "Right"),
        ("8", "Down"),
        ("5", "Space"),
        ("0", "Esc"),
        ("1", "Q"),
        ("3", "E"),
        ("7", "Z"),
        ("9", "X"),
        ("*", "LeftShift"),
        ("#", "Enter"),
    ];
    for (d, name) in expected {
        assert_eq!(m.get(d).map(|s| s.as_str()), Some(name), "digit {}", d);
    }
    assert_eq!(m.keys().len(), 12);
}

#[test]
fn default_keymap_resolves_every_digit() {
    let r = resolve_keymap(&default_keymap());
    assert_eq!(r.keys().len(), 12);
    assert_eq!(r.get("2"), Some(&KeyCode::Up));
    assert_eq!(r.get("0"), Some(&KeyCode::Esc));
    assert_eq!(r.get("*"), Some(&KeyCode::LeftShift));
    assert_eq!(r.get("#"), Some(&KeyCode::Enter));
}

#[test]
fn from_raw_fills_defaults() {
    let cfg = Config::from_raw(RawConfig { ami: raw_ami(), bridge: None, keymap: None });
    assert_eq!(cfg.ami.host, "127.0.0.1");
    assert_eq!(cfg.ami.port, 5038);
    assert_eq!(cfg.ami.username, "hugo");
    assert_eq!(cfg.ami.secret, "s3cret");
    assert_eq!(cfg.bridge.press_duration_ms, 80);
    assert_eq!(cfg.bridge.event_name, "HugoKey");
    assert_eq!(cfg.bridge.key_field, "Key");
    assert_eq!(cfg.keymap.get("2").map(|s| s.as_str()), Some("Up"));
}

#[test]
fn from_raw_keeps_given_values() {
    let mut keymap = StrMap::new();
    keymap.insert("1".to_string(), "F1".to_string());
    let cfg = Config::from_raw(RawConfig {
        ami: RawAmiConfig {
            host: Some("10.0.0.2".to_string()),
            port: Some(6000),
            username: "u".to_string(),
            secret: "p".to_string(),
        },
        bridge: Some(RawBridgeConfig {
            press_duration_ms: Some(120),
            event_name: None,
            key_field: Some("Digit".to_string()),
        }),
        keymap: Some(keymap),
    });
    assert_eq!(cfg.ami.host, "10.0.0.2");
    assert_eq!(cfg.ami.port, 6000);
    assert_eq!(cfg.bridge.press_duration_ms, 120);
    assert_eq!(cfg.bridge.event_name, "HugoKey");
    assert_eq!(cfg.bridge.key_field, "Digit");
    assert_eq!(cfg.keymap.get("1").map(|s| s.as_str()), Some("F1"));
    assert_eq!(cfg.keymap.get("2"), None);
}
