use hugo_bridge::ami::{
    ami_address, event_action, login_action, login_result, AmiMessage, EventAction, MessageReader,
    ReadStep,
};
use hugo_bridge::config::AmiConfig;
use hugo_bridge::strmap::StrMap;

fn message(pairs: &[(&str, &str)]) -> AmiMessage {
    let mut m = StrMap::new();
    for (k, v) in pairs {
        m.insert(k.to_string(), v.to_string());
    }
    m
}

fn field(m: &AmiMessage, k: &str) -> Option<String> {
    m.get(k).cloned()
}

#[test]
fn reader_collects_fields_until_blank_line() {
    let mut r = MessageReader::new();
    assert!(matches!(r.feed_line(Some("Event: UserEvent\r\n")), ReadStep::Pending));
    assert!(matches!(r.feed_line(Some("UserEvent:  HugoKey \r\n")), ReadStep::Pending));
    assert!(matches!(r.feed_line(Some("Key: 5\r\n")), ReadStep::Pending));
    match r.feed_line(Some("\r\n")) {
        ReadStep::Message(m) => {
            assert_eq!(field(&m, "Event").as_deref(), Some("UserEvent"));
            assert_eq!(field(&m, "UserEvent").as_deref(), Some("HugoKey"));
            assert_eq!(field(&m, "Key").as_deref(), Some("5"));
            assert_eq!(m.keys().len(), 3);
        }
        other => panic!("expected a message, got {:?}", other),
    }
    // The next message starts empty.
    assert!(matches!(r.feed_line(Some("\r\n")), ReadStep::Pending));
}

#[test]
fn reader_skips_leading_blank_lines_and_drops_lines_without_colon() {
    let mut r = MessageReader::new();
    assert!(matches!(r.feed_line(Some("\r\n")), ReadStep::Pending));
    assert!(matches!(r.feed_line(Some("\n")), ReadStep::Pending));
    assert!(matches!(r.feed_line(Some("Asterisk Call Manager/5.0.1\r\n")), ReadStep::Pending));
    // Only junk so far: a blank line does not end a message.
    assert!(matches!(r.feed_line(Some("\r\n")), ReadStep::Pending));
    assert!(matches!(r.feed_line(Some("Response: Success\r\n")), ReadStep::Pending));
    match r.feed_line(Some("\r\n")) {
        ReadStep::Message(m) => {
            assert_eq!(m.keys().len(), 1);
            assert_eq!(field(&m, "Response").as_deref(), Some("Success"));
        }
        other => panic!("expected a message, got {:?}", other),
    }
}

#[test]
fn reader_later_field_replaces_earlier_and_value_keeps_colons() {
    let mut r = MessageReader::new();
    r.feed_line(Some("Key: 1\r\n"));
    r.feed_line(Some("Key: 2\r\n"));
    r.feed_line(Some(" Time : 10:30:00 \n"));
    match r.feed_line(Some("\r\n")) {
        ReadStep::Message(m) => {
            assert_eq!(field(&m, "Key").as_deref(), Some("2"));
            assert_eq!(field(&m, "Time").as_deref(), Some("10:30:00"));
        }
        other => panic!("expected a message, got {:?}", other),
    }
}

#[test]
fn reader_reports_closed_connection() {
    let mut r = MessageReader::new();
    r.feed_line(Some("Key: 1\r\n"));
    assert!(matches!(r.feed_line(None), ReadStep::Closed));
}

#[test]
fn whitespace_only_line_is_not_blank() {
    let mut r = MessageReader::new();
    r.feed_line(Some("A: b\r\n"));
    // A line of spaces is neither blank nor a field: it is dropped.
    assert!(matches!(r.feed_line(Some("   \r\n")), ReadStep::Pending));
    assert!(matches!(r.feed_line(Some("\r\n")), ReadStep::Message(_)));
}

#[test]
fn login_action_text() {
    assert_eq!(
        login_action("hugo", "pw"),
        "Action: Login\r\nUsername: hugo\r\nSecret: pw\r\nEvents: user,call\r\n\r\n"
    );
}

#[test]
fn login_result_accepts_success_only() {
    assert_eq!(login_result(&message(&[("Response", "Success")])), Ok(()));
    assert_eq!(
        login_result(&message(&[
            ("Response", "Error"),
            ("Message", "Authentication failed")
        ])),
        Err("Login AMI falló: Authentication failed".to_string())
    );
    assert_eq!(
        login_result(&message(&[("Response", "Error")])),
        Err("Login AMI falló: razón desconocida".to_string())
    );
    assert_eq!(
        login_result(&message(&[])),
        Err("Login AMI falló: razón desconocida".to_string())
    );
    assert_eq!(
        login_result(&message(&[("Response", "success")])),
        Err("Login AMI falló: razón desconocida".to_string())
    );
}

#[test]
fn event_action_press() {
    let m = message(&[
        ("Event", "UserEvent"),
        ("UserEvent", "HugoKey"),
        ("Key", "5"),
        ("Caller", "1001"),
    ]);
    match event_action(&m, "HugoKey", "Key") {
        EventAction::Press { dtmf, caller } => {
            assert_eq!(dtmf, "5");
            assert_eq!(caller, "1001");
        }
        other => panic!("expected a press, got {:?}", other),
    }
    let m = message(&[("Event", "UserEvent"), ("UserEvent", "HugoKey"), ("Key", "#")]);
    match event_action(&m, "HugoKey", "Key") {
        EventAction::Press { dtmf, caller } => {
            assert_eq!(dtmf, "#");
            assert_eq!(caller, "?");
        }
        other => panic!("expected a press, got {:?}", other),
    }
}

#[test]
fn event_action_ignores_other_events() {
    let cases = [
        message(&[("Event", "Newchannel"), ("UserEvent", "HugoKey"), ("Key", "5")]),
        message(&[("Event", "UserEvent"), ("UserEvent", "Other"), ("Key", "5")]),
        message(&[("UserEvent", "HugoKey"), ("Key", "5")]),
        message(&[("Event", "UserEvent"), ("Key", "5")]),
        message(&[("Response", "Success")]),
    ];
    for m in cases {
        assert!(matches!(event_action(&m, "HugoKey", "Key"), EventAction::Ignore));
    }
}

#[test]
fn event_action_missing_key_field() {
    let m = message(&[("Event", "UserEvent"), ("UserEvent", "HugoKey"), ("Digit", "5")]);
    assert!(matches!(event_action(&m, "HugoKey", "Key"), EventAction::MissingKeyField));
    match event_action(&m, "HugoKey", "Digit") {
        EventAction::Press { dtmf, .. } => assert_eq!(dtmf, "5"),
        other => panic!("expected a press, got {:?}", other),
    }
}

#[test]
fn address_joins_host_and_port() {
    let ami = AmiConfig {
        host: "127.0.0.1".to_string(),
        port: 5038,
        username: "u".to_string(),
        secret: "s".to_string(),
    };
    assert_eq!(ami_address(&ami), "127.0.0.1:5038");
    let ami = AmiConfig { host: "pbx.local".to_string(), port: 0, ..ami };
    assert_eq!(ami_address(&ami), "pbx.local:0");
}
