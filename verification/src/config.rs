//! The bridge's configuration: how to reach the Asterisk manager, which user
//! event carries the DTMF digit, how long a key is held, and which key each
//! digit presses. Every setting but the manager's user name and secret has
//! a default.
use vstd::prelude::*;
use crate::key_names::law_key_name_names_its_key;
use crate::keys::{KeyCode, key_for_name};
use crate::strmap::{StrMap, texts_of};

verus! {

/// Where and as whom to log in to the Asterisk manager.
#[derive(Clone, Debug)]
pub struct AmiConfig {
    pub host: String,
    pub port: u16,
    pub username: String,
    pub secret: String,
}

/// How manager events become key presses.
#[derive(Clone, Debug)]
pub struct BridgeConfig {
    /// How long each key tap is held, in milliseconds.
    pub press_duration_ms: u64,
    /// The name of the `UserEvent` that carries a digit.
    pub event_name: String,
    /// The field of that event that holds the digit.
    pub key_field: String,
}

/// The whole configuration.
#[derive(Clone, Debug)]
pub struct Config {
    pub ami: AmiConfig,
    pub bridge: BridgeConfig,
    /// Each DTMF digit to the symbolic name of the key it presses.
    pub keymap: StrMap<String>,
}

/// The manager's settings as written in a configuration file, where host
/// and port may be left out.
#[derive(Debug)]
pub struct RawAmiConfig {
    pub host: Option<String>,
    pub port: Option<u16>,
    pub username: String,
    pub secret: String,
}

/// The bridge settings as written in a configuration file, each of which may
/// be left out.
#[derive(Debug)]
pub struct RawBridgeConfig {
    pub press_duration_ms: Option<u64>,
    pub event_name: Option<String>,
    pub key_field: Option<String>,
}

/// A configuration file's contents, where the bridge section and the keymap
/// may be left out.
#[derive(Debug)]
pub struct RawConfig {
    pub ami: RawAmiConfig,
    pub bridge: Option<RawBridgeConfig>,
    pub keymap: Option<StrMap<String>>,
}

/// The default keymap: the arrows on 2, 4, 6 and 8, space on 5, escape on
/// 0, the letters Q, E, Z and X on 1, 3, 7 and 9, left shift on `*` and
/// enter on `#`.
pub open spec fn default_keymap_texts() -> Map<Seq<char>, Seq<char>> {
    map![
        "2"@ => "Up"@,
        "4"@ => "Left"@,
        "6"@ => "Right"@,
        "8"@ => "Down"@,
        "5"@ => "Space"@,
        "0"@ => "Esc"@,
        "1"@ => "Q"@,
        "3"@ => "E"@,
        "7"@ => "Z"@,
        "9"@ => "X"@,
        "*"@ => "LeftShift"@,
        "#"@ => "Enter"@,
    ]
}

/// Every name in the default keymap is the name of a key, so that every
/// default digit presses a key.
pub proof fn law_default_names_are_keys()
    ensures
        forall|d: Seq<char>| #[trigger]
            default_keymap_texts().contains_key(d) ==> key_for_name(default_keymap_texts()[d]) is Some,
{
    reveal_strlit("2");
    reveal_strlit("4");
    reveal_strlit("6");
    reveal_strlit("8");
    reveal_strlit("5");
    reveal_strlit("0");
    reveal_strlit("1");
    reveal_strlit("3");
    reveal_strlit("7");
    reveal_strlit("9");
    reveal_strlit("*");
    reveal_strlit("#");
    law_key_name_names_its_key(KeyCode::Up);
    law_key_name_names_its_key(KeyCode::Left);
    law_key_name_names_its_key(KeyCode::Right);
    law_key_name_names_its_key(KeyCode::Down);
    law_key_name_names_its_key(KeyCode::Space);
    law_key_name_names_its_key(KeyCode::Esc);
    law_key_name_names_its_key(KeyCode::Q);
    law_key_name_names_its_key(KeyCode::E);
    law_key_name_names_its_key(KeyCode::Z);
    law_key_name_names_its_key(KeyCode::X);
    law_key_name_names_its_key(KeyCode::LeftShift);
    law_key_name_names_its_key(KeyCode::Enter);
}

/// The manager's default host.
pub fn default_host() -> (r: String)
    ensures
        r@ == "127.0.0.1"@,
{
    "127.0.0.1".to_owned()
}

/// The manager's default port.
pub fn default_port() -> (r: u16)
    ensures
        r == 5038,
{
    5038
}

/// The default time a key is held, in milliseconds.
pub fn default_press_ms() -> (r: u64)
    ensures
        r == 80,
{
    80
}

/// The default name of the user event that carries a digit.
pub fn default_event_name() -> (r: String)
    ensures
        r@ == "HugoKey"@,
{
    "HugoKey".to_owned()
}

/// The default field of that event that holds the digit.
pub fn default_key_field() -> (r: String)
    ensures
        r@ == "Key"@,
{
    "Key".to_owned()
}

/// Puts the text `value` under `key`.
fn put_text(m: &mut StrMap<String>, key: &str, value: &str)
    ensures
        texts_of(final(m)@) == texts_of(old(m)@).insert(key@, value@),
{
    m.insert(key.to_owned(), value.to_owned());
    assert(texts_of(m@) =~= texts_of(old(m)@).insert(key@, value@));
}

/// The default keymap from DTMF digits to key names.
pub fn default_keymap() -> (r: StrMap<String>)
    ensures
        texts_of(r@) == default_keymap_texts(),
{
    let mut m: StrMap<String> = StrMap::new();
    assert(texts_of(m@) =~= Map::<Seq<char>, Seq<char>>::empty());
    put_text(&mut m, "2", "Up");
    put_text(&mut m, "4", "Left");
    put_text(&mut m, "6", "Right");
    put_text(&mut m, "8", "Down");
    put_text(&mut m, "5", "Space");
    put_text(&mut m, "0", "Esc");
    put_text(&mut m, "1", "Q");
    put_text(&mut m, "3", "E");
    put_text(&mut m, "7", "Z");
    put_text(&mut m, "9", "X");
    put_text(&mut m, "*", "LeftShift");
    put_text(&mut m, "#", "Enter");
    m
}

impl Default for BridgeConfig {
    fn default() -> (r: Self)
        ensures
            r.press_duration_ms == 80,
            r.event_name@ == "HugoKey"@,
            r.key_field@ == "Key"@,
    {
        BridgeConfig {
            press_duration_ms: default_press_ms(),
            event_name: default_event_name(),
            key_field: default_key_field(),
        }
    }
}

/// `cfg` is what `raw` gives once each setting left out takes its default.
pub open spec fn defaults_applied(raw: RawConfig, cfg: Config) -> bool {
    &&& cfg.ami.host@ == (match raw.ami.host {
        Some(h) => h@,
        None => "127.0.0.1"@,
    })
    &&& cfg.ami.port == (match raw.ami.port {
        Some(p) => p,
        None => 5038,
    })
    &&& cfg.ami.username@ == raw.ami.username@
    &&& cfg.ami.secret@ == raw.ami.secret@
    &&& cfg.bridge.press_duration_ms == (match raw.bridge {
        Some(b) => match b.press_duration_ms {
            Some(ms) => ms,
            None => 80,
        },
        None => 80,
    })
    &&& cfg.bridge.event_name@ == (match raw.bridge {
        Some(b) => match b.event_name {
            Some(e) => e@,
            None => "HugoKey"@,
        },
        None => "HugoKey"@,
    })
    &&& cfg.bridge.key_field@ == (match raw.bridge {
        Some(b) => match b.key_field {
            Some(k) => k@,
            None => "Key"@,
        },
        None => "Key"@,
    })
    &&& texts_of(cfg.keymap@) == (match raw.keymap {
        Some(m) => texts_of(m@),
        None => default_keymap_texts(),
    })
}

/// Each setting left out of the file takes its default (host 127.0.0.1,
/// port 5038, 80 ms presses, event `HugoKey`, field `Key`, the default
/// keymap), each in a bridge section that is there as much as where the
/// whole section is left out; each setting given is kept as given.
pub proof fn law_left_out_settings_take_defaults(raw: RawConfig, cfg: Config)
    requires
        defaults_applied(raw, cfg),
    ensures
        raw.ami.host is None ==> cfg.ami.host@ == "127.0.0.1"@,
        raw.ami.host matches Some(h) ==> cfg.ami.host@ == h@,
        raw.ami.port is None ==> cfg.ami.port == 5038,
        raw.ami.port matches Some(p) ==> cfg.ami.port == p,
        cfg.ami.username@ == raw.ami.username@,
        cfg.ami.secret@ == raw.ami.secret@,
        (raw.bridge is None || raw.bridge->0.press_duration_ms is None)
            ==> cfg.bridge.press_duration_ms == 80,
        raw.bridge matches Some(b) ==> (b.press_duration_ms matches Some(ms)
            ==> cfg.bridge.press_duration_ms == ms),
        (raw.bridge is None || raw.bridge->0.event_name is None) ==> cfg.bridge.event_name@
            == "HugoKey"@,
        raw.bridge matches Some(b) ==> (b.event_name matches Some(e) ==> cfg.bridge.event_name@
            == e@),
        (raw.bridge is None || raw.bridge->0.key_field is None) ==> cfg.bridge.key_field@
            == "Key"@,
        raw.bridge matches Some(b) ==> (b.key_field matches Some(k) ==> cfg.bridge.key_field@
            == k@),
        raw.keymap is None ==> texts_of(cfg.keymap@) == default_keymap_texts(),
        raw.keymap matches Some(m) ==> texts_of(cfg.keymap@) == texts_of(m@),
{
}

fn or_default_text(v: Option<String>, default: String) -> (r: String)
    ensures
        r@ == (match v {
            Some(s) => s@,
            None => default@,
        }),
{
    match v {
        Some(s) => s,
        None => default,
    }
}

impl BridgeConfig {
    /// The bridge settings that `raw` gives, each left out one taking its
    /// default.
    pub fn from_raw(raw: Option<RawBridgeConfig>) -> (r: BridgeConfig)
        ensures
            r.press_duration_ms == (match raw {
                Some(b) => match b.press_duration_ms {
                    Some(ms) => ms,
                    None => 80,
                },
                None => 80,
            }),
            r.event_name@ == (match raw {
                Some(b) => match b.event_name {
                    Some(e) => e@,
                    None => "HugoKey"@,
                },
                None => "HugoKey"@,
            }),
            r.key_field@ == (match raw {
                Some(b) => match b.key_field {
                    Some(k) => k@,
                    None => "Key"@,
                },
                None => "Key"@,
            }),
    {
        match raw {
            Some(b) => BridgeConfig {
                press_duration_ms: match b.press_duration_ms {
                    Some(ms) => ms,
                    None => default_press_ms(),
                },
                event_name: or_default_text(b.event_name, default_event_name()),
                key_field: or_default_text(b.key_field, default_key_field()),
            },
            None => BridgeConfig::default(),
        }
    }
}

impl Config {
    /// The configuration that the file contents `raw` give, each setting
    /// left out taking its default.
    pub fn from_raw(raw: RawConfig) -> (r: Config)
        ensures
            defaults_applied(raw, r),
    {
        let ami = AmiConfig {
            host: or_default_text(raw.ami.host, default_host()),
            port: match raw.ami.port {
                Some(p) => p,
                None => default_port(),
            },
            username: raw.ami.username,
            secret: raw.ami.secret,
        };
        let bridge = BridgeConfig::from_raw(raw.bridge);
        let keymap = match raw.keymap {
            Some(m) => m,
            None => default_keymap(),
        };
        Config { ami, bridge, keymap }
    }
}

} // verus!
