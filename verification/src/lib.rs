//! A bridge that turns DTMF key events from an Asterisk manager connection
//! into presses on a virtual keyboard, with a configuration that can be
//! reloaded while it runs.
//!
//! The library holds the bridge's logic: the configuration and its
//! defaults, the keymap from DTMF digits to keys, the framing and meaning of
//! manager messages, the steps of a manager session, the reconnection
//! backoff and the debouncing of configuration reloads. Sockets, files, the
//! input device and timers belong to the program around it.
pub mod ami;
pub mod config;
pub mod keyboard;
pub mod key_names;
pub mod keys;
pub mod session;
pub mod strmap;
pub mod text;
pub mod watcher;

pub use config::{
    AmiConfig, BridgeConfig, Config, RawAmiConfig, RawBridgeConfig, RawConfig, default_event_name,
    default_host, default_key_field, default_keymap, default_port, default_press_ms,
};
pub use keyboard::{KeyPress, VirtualKeyboard};
pub use keys::{KeyCode, parse_key_name, resolve_keymap};
pub use strmap::StrMap;
