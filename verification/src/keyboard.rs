//! The state of the virtual keyboard: which key each DTMF digit presses and
//! how long a press is held. Creating the input device and sending the key
//! events to it is left to the program around the library, which follows
//! the `KeyPress` this state hands out.
use vstd::prelude::*;
use crate::keys::{KeyCode, resolved_keymap, resolve_keymap};
use crate::strmap::StrMap;

verus! {

/// One tap of a key: press `key`, hold it `hold_ms` milliseconds, release it.
#[derive(Clone, Copy, Debug, PartialEq, Eq, Structural)]
pub struct KeyPress {
    pub key: KeyCode,
    pub hold_ms: u64,
}

/// The keymap and press duration of the virtual keyboard.
#[derive(Debug)]
pub struct VirtualKeyboard {
    keymap: StrMap<KeyCode>,
    press_duration_ms: u64,
}

impl VirtualKeyboard {
    /// Each DTMF digit to the key it presses.
    pub closed spec fn keys(&self) -> Map<Seq<char>, KeyCode> {
        self.keymap@
    }

    /// How long each press is held, in milliseconds.
    pub closed spec fn hold_ms(&self) -> u64 {
        self.press_duration_ms
    }

    /// A keyboard whose keymap resolves the key names of `symbolic_map`
    /// (unknown names are left out) and whose presses last
    /// `press_duration_ms` milliseconds.
    pub fn new(symbolic_map: &StrMap<String>, press_duration_ms: u64) -> (r: Self)
        ensures
            r.keys() == resolved_keymap(symbolic_map@),
            r.hold_ms() == press_duration_ms,
    {
        VirtualKeyboard { keymap: resolve_keymap(symbolic_map), press_duration_ms }
    }

    /// The tap that the digit `dtmf` calls for, or `None` where the keymap
    /// has no key for it (then nothing is pressed).
    pub fn press_dtmf(&self, dtmf: &str) -> (r: Option<KeyPress>)
        ensures
            match r {
                Some(p) => self.keys().contains_key(dtmf@) && p.key == self.keys()[dtmf@]
                    && p.hold_ms == self.hold_ms(),
                None => !self.keys().contains_key(dtmf@),
            },
    {
        match self.keymap.get(dtmf) {
            Some(key) => Some(KeyPress { key: *key, hold_ms: self.press_duration_ms }),
            None => None,
        }
    }

    /// Replaces the keymap with the resolution of `new_symbolic`; the press
    /// duration stays.
    pub fn update_keymap(&mut self, new_symbolic: &StrMap<String>)
        ensures
            final(self).keys() == resolved_keymap(new_symbolic@),
            final(self).hold_ms() == old(self).hold_ms(),
    {
        self.keymap = resolve_keymap(new_symbolic);
    }

    /// Sets how long each press is held; the keymap stays.
    pub fn set_press_duration(&mut self, ms: u64)
        ensures
            final(self).hold_ms() == ms,
            final(self).keys() == old(self).keys(),
    {
        self.press_duration_ms = ms;
    }
}

} // verus!
