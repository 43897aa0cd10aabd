use hugo_bridge::config::{AmiConfig, BridgeConfig, Config};
use hugo_bridge::keyboard::{KeyPress, VirtualKeyboard};
use hugo_bridge::keys::KeyCode;
use hugo_bridge::session::{
    ami_settings_changed, apply_reload, AmiSession, Backoff, Phase, SessionAction,
};
use hugo_bridge::strmap::StrMap;
use hugo_bridge::watcher::{FsEventKind, ReloadDebouncer, RELOAD_QUIET_MS};

fn keymap(pairs: &[(&str, &str)]) -> StrMap<String> {
    let mut m = StrMap::new();
    for (k, v) in pairs {
        m.insert(k.to_string(), v.to_string());
    }
    m
}

fn config(user: &str, pairs: &[(&str, &str)], ms: u64) -> Config {
    Config {
        ami: AmiConfig {
            host: "127.0.0.1".to_string(),
            port: 5038,
            username: user.to_string(),
            secret: "pw".to_string(),
        },
        bridge: BridgeConfig { press_duration_ms: ms, ..BridgeConfig::default() },
        keymap: keymap(pairs),
    }
}

fn feed(s: &mut AmiSession, kb: &VirtualKeyboard, lines: &[&str]) -> Vec<SessionAction> {
    lines.iter().map(|l| s.on_line(kb, Some(l))).collect()
}

fn logged_in_session(cfg: Config, kb: &VirtualKeyboard) -> AmiSession {
    let mut s = AmiSession::new(cfg);
    assert_eq!(s.phase(), Phase::AwaitBanner);
    match s.on_line(kb, Some("Asterisk Call Manager/5.0.1\r\n")) {
        SessionAction::SendLogin(text) => assert_eq!(
            text,
            "Action: Login\r\nUsername: hugo\r\nSecret: pw\r\nEvents: user,call\r\n\r\n"
        ),
        other => panic!("expected the login action, got {:?}", other),
    }
    assert_eq!(s.phase(), Phase::AwaitLoginReply);
    let acts = feed(&mut s, kb, &["Response: Success\r\n", "Message: Authentication accepted\r\n", "\r\n"]);
    assert!(matches!(acts[0], SessionAction::Continue));
    assert!(matches!(acts[1], SessionAction::Continue));
    assert!(matches!(acts[2], SessionAction::LoggedIn));
    assert_eq!(s.phase(), Phase::Listening);
    s
}

#[test]
fn session_address() {
    let s = AmiSession::new(config("hugo", &[], 80));
    assert_eq!(s.address(), "127.0.0.1:5038");
}

#[test]
fn session_presses_key_for_user_event() {
    let cfg = config("hugo", &[("5", "Space")], 80);
    let kb = VirtualKeyboard::new(&cfg.keymap, cfg.bridge.press_duration_ms);
    let mut s = logged_in_session(cfg, &kb);
    let acts = feed(
        &mut s,
        &kb,
        &["Event: UserEvent\r\n", "UserEvent: HugoKey\r\n", "Key: 5\r\n", "Caller: 1001\r\n", "\r\n"],
    );
    match &acts[4] {
        SessionAction::Press { press, dtmf, caller } => {
            assert_eq!(*press, Some(KeyPress { key: KeyCode::Space, hold_ms: 80 }));
            assert_eq!(dtmf, "5");
            assert_eq!(caller, "1001");
        }
        other => panic!("expected a press, got {:?}", other),
    }
    // A digit with no key: the event is recognised, nothing is pressed.
    let acts = feed(&mut s, &kb, &["Event: UserEvent\r\n", "UserEvent: HugoKey\r\n", "Key: 7\r\n", "\r\n"]);
    match &acts[3] {
        SessionAction::Press { press, dtmf, caller } => {
            assert_eq!(*press, None);
            assert_eq!(dtmf, "7");
            assert_eq!(caller, "?");
        }
        other => panic!("expected a press, got {:?}", other),
    }
    // Other events are ignored; a key event without its field is reported.
    let acts = feed(&mut s, &kb, &["Event: Hangup\r\n", "\r\n"]);
    assert!(matches!(acts[1], SessionAction::Continue));
    let acts = feed(&mut s, &kb, &["Event: UserEvent\r\n", "UserEvent: HugoKey\r\n", "\r\n"]);
    assert!(matches!(acts[2], SessionAction::MissingKeyField));
    assert_eq!(s.phase(), Phase::Listening);
}

#[test]
fn session_fails_on_refused_login() {
    let cfg = config("hugo", &[], 80);
    let kb = VirtualKeyboard::new(&cfg.keymap, 80);
    let mut s = AmiSession::new(cfg);
    s.on_line(&kb, Some("Asterisk Call Manager/5.0.1\r\n"));
    let acts = feed(&mut s, &kb, &["Response: Error\r\n", "Message: Authentication failed\r\n", "\r\n"]);
    match &acts[2] {
        SessionAction::Failed(e) => assert_eq!(e, "Login AMI falló: Authentication failed"),
        other => panic!("expected a failure, got {:?}", other),
    }
    assert_eq!(s.phase(), Phase::Ended);
    assert!(matches!(s.on_line(&kb, Some("Key: 1\r\n")), SessionAction::Continue));
}

#[test]
fn session_fails_when_manager_closes() {
    let cfg = config("hugo", &[], 80);
    let kb = VirtualKeyboard::new(&cfg.keymap, 80);
    let mut s = logged_in_session(cfg, &kb);
    match s.on_line(&kb, None) {
        SessionAction::Failed(e) => assert_eq!(e, "Conexión AMI cerrada por el servidor"),
        other => panic!("expected a failure, got {:?}", other),
    }
    assert_eq!(s.phase(), Phase::Ended);
}

#[test]
fn session_banner_then_close_fails_at_login() {
    let cfg = config("hugo", &[], 80);
    let kb = VirtualKeyboard::new(&cfg.keymap, 80);
    let mut s = AmiSession::new(cfg);
    assert!(matches!(s.on_line(&kb, None), SessionAction::SendLogin(_)));
    assert!(matches!(s.on_line(&kb, None), SessionAction::Failed(_)));
}

#[test]
fn hot_reload_of_keymap_keeps_connection() {
    let cfg = config("hugo", &[("2", "Up")], 80);
    let mut kb = VirtualKeyboard::new(&cfg.keymap, 80);
    let mut s = logged_in_session(cfg, &kb);
    let new_cfg = config("hugo", &[("2", "Down")], 40);
    assert!(matches!(s.on_config_changed(&mut kb, &new_cfg), SessionAction::Reloaded));
    assert_eq!(s.phase(), Phase::Listening);
    assert_eq!(kb.press_dtmf("2"), Some(KeyPress { key: KeyCode::Down, hold_ms: 40 }));
}

#[test]
fn hot_reload_drops_message_under_way() {
    let cfg = config("hugo", &[("5", "Space")], 80);
    let mut kb = VirtualKeyboard::new(&cfg.keymap, 80);
    let mut s = logged_in_session(cfg, &kb);
    feed(&mut s, &kb, &["Event: UserEvent\r\n", "UserEvent: HugoKey\r\n"]);
    let new_cfg = config("hugo", &[("5", "Space")], 80);
    assert!(matches!(s.on_config_changed(&mut kb, &new_cfg), SessionAction::Reloaded));
    // The fields read before the reload are gone: this is no key event.
    let acts = feed(&mut s, &kb, &["Key: 5\r\n", "\r\n"]);
    assert!(matches!(acts[1], SessionAction::Continue));
}

#[test]
fn hot_reload_of_ami_settings_reconnects() {
    let cfg = config("hugo", &[("2", "Up")], 80);
    let mut kb = VirtualKeyboard::new(&cfg.keymap, 80);
    let mut s = logged_in_session(cfg, &kb);
    let new_cfg = config("other", &[("2", "Left")], 80);
    assert!(matches!(s.on_config_changed(&mut kb, &new_cfg), SessionAction::Reconnect));
    assert_eq!(s.phase(), Phase::Ended);
    assert_eq!(kb.press_dtmf("2"), Some(KeyPress { key: KeyCode::Left, hold_ms: 80 }));
}

#[test]
fn config_closed_shuts_down() {
    let cfg = config("hugo", &[], 80);
    let kb = VirtualKeyboard::new(&cfg.keymap, 80);
    let mut s = logged_in_session(cfg, &kb);
    assert!(matches!(s.on_config_closed(), SessionAction::Shutdown));
    assert_eq!(s.phase(), Phase::Ended);
}

#[test]
fn settings_change_detection() {
    let a = config("hugo", &[], 80);
    let mut b = config("hugo", &[("1", "A")], 10);
    assert!(!ami_settings_changed(&a.ami, &b.ami));
    b.ami.port = 5039;
    assert!(ami_settings_changed(&a.ami, &b.ami));
    let mut c = config("hugo", &[], 80);
    c.ami.secret = "other".to_string();
    assert!(ami_settings_changed(&a.ami, &c.ami));
    let mut d = config("hugo", &[], 80);
    d.ami.host = "localhost".to_string();
    assert!(ami_settings_changed(&a.ami, &d.ami));
}

#[test]
fn apply_reload_updates_keyboard() {
    let a = config("hugo", &[("1", "A")], 80);
    let b = config("hugo", &[("1", "B")], 90);
    let mut kb = VirtualKeyboard::new(&a.keymap, 80);
    assert!(!apply_reload(&mut kb, &a, &b));
    assert_eq!(kb.press_dtmf("1"), Some(KeyPress { key: KeyCode::B, hold_ms: 90 }));
}

#[test]
fn backoff_doubles_to_thirty_and_resets() {
    let mut b = Backoff::new();
    let waits: Vec<u64> = (0..8).map(|_| b.on_failure()).collect();
    assert_eq!(waits, vec![1, 2, 4, 8, 16, 30, 30, 30]);
    assert_eq!(b.delay_secs(), 30);
    b.on_success();
    assert_eq!(b.delay_secs(), 1);
    assert_eq!(b.on_failure(), 1);
    assert_eq!(b.delay_secs(), 2);
}

#[test]
fn debouncer_reloads_after_relevant_event() {
    assert_eq!(RELOAD_QUIET_MS, 500);
    let mut d = ReloadDebouncer::new();
    assert!(!d.reload_pending());
    d.on_event(FsEventKind::Other, true);
    assert!(!d.reload_pending());
    d.on_event(FsEventKind::Modify, false);
    assert!(!d.reload_pending());
    d.on_event(FsEventKind::Modify, true);
    assert!(d.reload_pending());
    d.on_event(FsEventKind::Other, false);
    assert!(d.reload_pending());
    assert!(d.on_quiet());
    assert!(!d.reload_pending());
    assert!(!d.on_quiet());
    d.on_event(FsEventKind::Create, true);
    assert!(d.on_quiet());
}
