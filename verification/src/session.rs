//! A manager session as a state machine: each line read, each reloaded
//! configuration, and the end of configurations is a step that says what
//! to send, press or report; and the wait before reconnecting after a
//! session failed. The socket and the timers are the caller's.
use vstd::prelude::*;
use vstd::arithmetic::power2::{pow2, lemma_pow2_unfold};
use crate::ami::{
    MessageReader, ReadStep, EventAction, caller_of, event_action, is_blank_line, is_key_event,
    login_accepted, login_action, login_refusal, login_result, login_text, pending_after,
    ami_address,
};
use crate::config::{AmiConfig, BridgeConfig, Config};
use crate::keyboard::{KeyPress, VirtualKeyboard};
use crate::keys::resolved_keymap;
use crate::text::{decimal, same_text};

verus! {

/// The longest wait between reconnection attempts, in seconds.
pub const MAX_BACKOFF_SECS: u64 = 30;

/// The wait that follows a wait of `secs` seconds after one more failure:
/// twice as long, but no longer than the cap.
pub open spec fn next_backoff(secs: u64) -> u64 {
    if 2 * secs < MAX_BACKOFF_SECS {
        (2 * secs) as u64
    } else {
        MAX_BACKOFF_SECS
    }
}

/// The wait before the next attempt after `failures` failures in a row,
/// counted from a fresh start or the last success.
pub open spec fn backoff_after(failures: nat) -> u64
    decreases failures,
{
    if failures == 0 {
        1
    } else {
        next_backoff(backoff_after((failures - 1) as nat))
    }
}

/// The wait before reconnecting to the manager, in seconds, together with
/// the number of failures in a row that led to it.
pub struct Backoff {
    secs: u64,
    failures: Ghost<nat>,
}

impl Backoff {
    #[verifier::type_invariant]
    spec fn follows_failures(self) -> bool {
        &&& self.secs == backoff_after(self.failures@)
        &&& 1 <= self.secs <= MAX_BACKOFF_SECS
    }

    /// The wait, in seconds, that the next failure calls for.
    pub closed spec fn delay(&self) -> u64 {
        self.secs
    }

    /// The failures in a row since the start or the last success.
    pub closed spec fn failures(&self) -> nat {
        self.failures@
    }

    /// A backoff with no failure yet: its wait is one second.
    pub fn new() -> (r: Self)
        ensures
            r.failures() == 0,
            r.delay() == 1,
    {
        Backoff { secs: 1, failures: Ghost(0) }
    }

    /// The wait that the next failure calls for: `backoff_after` of the
    /// failures in a row so far.
    pub fn delay_secs(&self) -> (r: u64)
        ensures
            r == self.delay(),
            r == backoff_after(self.failures()),
            1 <= r <= MAX_BACKOFF_SECS,
    {
        proof {
            use_type_invariant(self);
        }
        self.secs
    }

    /// A connection ended cleanly: the count of failures starts again and
    /// the wait goes back to one second.
    pub fn on_success(&mut self)
        ensures
            final(self).failures() == 0,
            final(self).delay() == 1,
    {
        *self = Backoff { secs: 1, failures: Ghost(0) };
    }

    /// A connection failed: returns how long to wait before the next
    /// attempt. After the j-th failure in a row the wait is `2^(j-1)`
    /// seconds, up to the cap; the wait that follows doubles, up to the cap.
    pub fn on_failure(&mut self) -> (wait: u64)
        ensures
            final(self).failures() == old(self).failures() + 1,
            wait == old(self).delay(),
            wait == backoff_after(old(self).failures()),
            wait == if pow2(old(self).failures()) < MAX_BACKOFF_SECS {
                pow2(old(self).failures())
            } else {
                MAX_BACKOFF_SECS as nat
            },
            1 <= wait <= MAX_BACKOFF_SECS,
            final(self).delay() == next_backoff(old(self).delay()),
            final(self).delay() == backoff_after(final(self).failures()),
            1 <= final(self).delay() <= MAX_BACKOFF_SECS,
    {
        proof {
            use_type_invariant(&*self);
            law_backoff_doubles_up_to_cap(self.failures@);
        }
        let wait = self.secs;
        let doubled = self.secs * 2;
        let next = if doubled < MAX_BACKOFF_SECS {
            doubled
        } else {
            MAX_BACKOFF_SECS
        };
        let ghost count: nat = self.failures@ + 1;
        proof {
            assert(backoff_after(count) == next_backoff(backoff_after(self.failures@)));
        }
        *self = Backoff { secs: next, failures: Ghost(count) };
        wait
    }
}

/// After `n` failures in a row the wait is `2^n` seconds, up to the cap of
/// thirty seconds, where it stays.
pub proof fn law_backoff_doubles_up_to_cap(n: nat)
    ensures
        MAX_BACKOFF_SECS == 30,
        backoff_after(n) == if pow2(n) < MAX_BACKOFF_SECS {
            pow2(n)
        } else {
            MAX_BACKOFF_SECS as nat
        },
        1 <= backoff_after(n) <= MAX_BACKOFF_SECS,
    decreases n,
{
    if n == 0 {
        assert(pow2(0) == 1) by {
            vstd::arithmetic::power2::lemma2_to64();
        }
    } else {
        law_backoff_doubles_up_to_cap((n - 1) as nat);
        lemma_pow2_unfold(n);
    }
}

/// The connection settings of `a` and `b` differ: host, port, user name or
/// secret.
pub open spec fn ami_differs(a: AmiConfig, b: AmiConfig) -> bool {
    ||| a.host@ != b.host@
    ||| a.port != b.port
    ||| a.username@ != b.username@
    ||| a.secret@ != b.secret@
}

/// Reloading a configuration whose connection settings are those the
/// session connected with never forces a reconnection.
pub proof fn law_same_settings_keep_connection(current: AmiConfig, new: AmiConfig)
    requires
        new.host@ == current.host@,
        new.port == current.port,
        new.username@ == current.username@,
        new.secret@ == current.secret@,
    ensures
        !ami_differs(current, new),
{
}

/// A change of any one connection setting (host, port, user name or secret)
/// forces a reconnection.
pub proof fn law_any_settings_change_reconnects(current: AmiConfig, new: AmiConfig)
    ensures
        new.host@ != current.host@ ==> ami_differs(current, new),
        new.port != current.port ==> ami_differs(current, new),
        new.username@ != current.username@ ==> ami_differs(current, new),
        new.secret@ != current.secret@ ==> ami_differs(current, new),
{
}

/// Whether the connection settings changed from `current` to `new`.
pub fn ami_settings_changed(current: &AmiConfig, new: &AmiConfig) -> (r: bool)
    ensures
        r == ami_differs(*current, *new),
{
    !same_text(current.host.as_str(), new.host.as_str()) || current.port != new.port
        || !same_text(current.username.as_str(), new.username.as_str()) || !same_text(
        current.secret.as_str(),
        new.secret.as_str(),
    )
}

/// Applies the configuration `new`, reloaded while connected with
/// `current`: the keymap and the press duration take effect at once; the
/// result says whether the connection settings changed, in which case the
/// session must reconnect.
pub fn apply_reload(keyboard: &mut VirtualKeyboard, current: &Config, new: &Config) -> (reconnect:
    bool)
    ensures
        final(keyboard).keys() == resolved_keymap(new.keymap@),
        final(keyboard).hold_ms() == new.bridge.press_duration_ms,
        reconnect == ami_differs(current.ami, new.ami),
{
    keyboard.update_keymap(&new.keymap);
    keyboard.set_press_duration(new.bridge.press_duration_ms);
    ami_settings_changed(&current.ami, &new.ami)
}

/// The error text when the manager closes the connection.
pub open spec fn closed_text() -> Seq<char> {
    "Conexión AMI cerrada por el servidor"@
}

/// Where a session stands.
#[derive(Clone, Copy, Debug, PartialEq, Eq, Structural)]
pub enum Phase {
    /// Connected; the manager's greeting line comes first.
    AwaitBanner,
    /// The `Login` action was sent; its reply is the next message.
    AwaitLoginReply,
    /// Logged in: messages are events.
    Listening,
    /// The session is over; a new one must connect.
    Ended,
}

/// What the program around the library must do after a step of a session.
#[derive(Debug)]
pub enum SessionAction {
    /// Send this text to the manager.
    SendLogin(String),
    /// Nothing to do: read on.
    Continue,
    /// The manager accepted the login.
    LoggedIn,
    /// A key event for `dtmf`, sent by `caller`: tap `press`, or nothing
    /// where the keymap has no key for the digit.
    Press { press: Option<KeyPress>, dtmf: String, caller: String },
    /// A key event without the field that holds the digit.
    MissingKeyField,
    /// The new configuration took effect; the connection stays.
    Reloaded,
    /// The connection settings changed: the session ended cleanly and a new
    /// one must connect.
    Reconnect,
    /// No more configuration can come: the session ended cleanly.
    Shutdown,
    /// The session failed with this error.
    Failed(String),
}

/// What a complete event message `msg` leads to, under the bridge settings
/// `bridge` and the keyboard state `keyboard`.
pub open spec fn event_outcome(
    r: SessionAction,
    msg: Map<Seq<char>, Seq<char>>,
    bridge: BridgeConfig,
    keyboard: VirtualKeyboard,
) -> bool {
    if !is_key_event(msg, bridge.event_name@) {
        r is Continue
    } else if !msg.contains_key(bridge.key_field@) {
        r is MissingKeyField
    } else {
        &&& r matches SessionAction::Press { press, dtmf, caller }
        &&& dtmf@ == msg[bridge.key_field@]
        &&& caller@ == caller_of(msg)
        &&& press == if keyboard.keys().contains_key(dtmf@) {
            Some(KeyPress { key: keyboard.keys()[dtmf@], hold_ms: keyboard.hold_ms() })
        } else {
            None
        }
    }
}

/// A message that is not the configured user event is passed over; the
/// configured user event without the key field is reported; with it, it
/// is a press of that field's digit from the message's sender.
pub proof fn law_event_outcome_cases(
    r: SessionAction,
    msg: Map<Seq<char>, Seq<char>>,
    bridge: BridgeConfig,
    keyboard: VirtualKeyboard,
)
    requires
        event_outcome(r, msg, bridge, keyboard),
    ensures
        !(msg.contains_key("Event"@) && msg["Event"@] == "UserEvent"@ && msg.contains_key(
            "UserEvent"@,
        ) && msg["UserEvent"@] == bridge.event_name@) ==> r is Continue,
        (msg.contains_key("Event"@) && msg["Event"@] == "UserEvent"@ && msg.contains_key(
            "UserEvent"@,
        ) && msg["UserEvent"@] == bridge.event_name@ && !msg.contains_key(bridge.key_field@))
            ==> r is MissingKeyField,
        (msg.contains_key("Event"@) && msg["Event"@] == "UserEvent"@ && msg.contains_key(
            "UserEvent"@,
        ) && msg["UserEvent"@] == bridge.event_name@ && msg.contains_key(bridge.key_field@))
            ==> (r matches SessionAction::Press { press, dtmf, caller } && dtmf@
            == msg[bridge.key_field@] && caller@ == (if msg.contains_key("Caller"@) {
            msg["Caller"@]
        } else {
            "?"@
        })),
{
}

/// The tap of a key event is what the keyboard gives for its digit at the
/// time: its key, held for the keyboard's current press duration (which a
/// reload changes at once), and no tap where the keyboard has no key for
/// the digit.
pub proof fn law_press_is_the_keyboards(
    r: SessionAction,
    msg: Map<Seq<char>, Seq<char>>,
    bridge: BridgeConfig,
    keyboard: VirtualKeyboard,
)
    requires
        event_outcome(r, msg, bridge, keyboard),
    ensures
        r matches SessionAction::Press { press, dtmf, caller } ==> match press {
            Some(p) => keyboard.keys().contains_key(dtmf@) && p.key == keyboard.keys()[dtmf@]
                && p.hold_ms == keyboard.hold_ms(),
            None => !keyboard.keys().contains_key(dtmf@),
        },
{
}

/// After a reload to `new`, a key event is held for the press duration of
/// `new`, whatever the duration the session connected with.
pub proof fn law_reloaded_duration_applies(
    r: SessionAction,
    msg: Map<Seq<char>, Seq<char>>,
    bridge: BridgeConfig,
    keyboard: VirtualKeyboard,
    new: Config,
)
    requires
        keyboard.hold_ms() == new.bridge.press_duration_ms,
        event_outcome(r, msg, bridge, keyboard),
    ensures
        r matches SessionAction::Press { press: Some(p), dtmf, caller } ==> p.hold_ms
            == new.bridge.press_duration_ms,
{
}

/// One connection to the manager, from its greeting to its end.
pub struct AmiSession {
    config: Config,
    phase: Phase,
    reader: MessageReader,
}

impl AmiSession {
    /// Where the session stands.
    pub closed spec fn state(&self) -> Phase {
        self.phase
    }

    /// The configuration the session connected with.
    pub closed spec fn settings(&self) -> Config {
        self.config
    }

    /// The fields read so far of the message under way.
    pub closed spec fn pending(&self) -> Map<Seq<char>, Seq<char>> {
        self.reader.pending()
    }

    /// A session about to connect with `config`.
    pub fn new(config: Config) -> (r: Self)
        ensures
            r.state() == Phase::AwaitBanner,
            r.settings() == config,
            r.pending() == Map::<Seq<char>, Seq<char>>::empty(),
    {
        AmiSession { config, phase: Phase::AwaitBanner, reader: MessageReader::new() }
    }

    /// Where the session stands.
    pub fn phase(&self) -> (r: Phase)
        ensures
            r == self.state(),
    {
        self.phase
    }

    /// The address to connect to.
    pub fn address(&self) -> (r: String)
        ensures
            r@ == self.settings().ami.host@ + ":"@ + decimal(self.settings().ami.port as nat),
    {
        ami_address(&self.config.ami)
    }

    /// The next line from the manager, with its line end, or `None` where
    /// the manager closed the connection. The greeting line calls for the
    /// `Login` action; the first message after it is the login reply; each
    /// message after that is an event.
    pub fn on_line(&mut self, keyboard: &VirtualKeyboard, line: Option<&str>) -> (r:
        SessionAction)
        ensures
            final(self).settings() == old(self).settings(),
            r matches SessionAction::Press { press, dtmf, caller } ==> press == if keyboard.keys().contains_key(
                dtmf@,
            ) {
                Some(KeyPress { key: keyboard.keys()[dtmf@], hold_ms: keyboard.hold_ms() })
            } else {
                None
            },
            match old(self).state() {
                Phase::AwaitBanner => {
                    &&& r matches SessionAction::SendLogin(s) && s@ == login_text(
                        old(self).settings().ami.username@,
                        old(self).settings().ami.secret@,
                    )
                    &&& final(self).state() == Phase::AwaitLoginReply
                    &&& final(self).pending() == old(self).pending()
                },
                Phase::Ended => {
                    &&& r is Continue
                    &&& final(self).state() == Phase::Ended
                    &&& final(self).pending() == old(self).pending()
                },
                _ => match line {
                    None => r matches SessionAction::Failed(e) && e@ == closed_text()
                        && final(self).state() == Phase::Ended,
                    Some(l) => if is_blank_line(l@) && old(self).pending() != Map::<
                        Seq<char>,
                        Seq<char>,
                    >::empty() {
                        &&& final(self).pending() == Map::<Seq<char>, Seq<char>>::empty()
                        &&& if old(self).state() == Phase::AwaitLoginReply {
                            if login_accepted(old(self).pending()) {
                                r is LoggedIn && final(self).state() == Phase::Listening
                            } else {
                                &&& r matches SessionAction::Failed(e) && e@ == login_refusal(
                                    old(self).pending(),
                                )
                                &&& final(self).state() == Phase::Ended
                            }
                        } else {
                            &&& final(self).state() == Phase::Listening
                            &&& event_outcome(
                                r,
                                old(self).pending(),
                                old(self).settings().bridge,
                                *keyboard,
                            )
                        }
                    } else {
                        &&& r is Continue
                        &&& final(self).state() == old(self).state()
                        &&& final(self).pending() == if is_blank_line(l@) {
                            old(self).pending()
                        } else {
                            pending_after(old(self).pending(), l@)
                        }
                    },
                },
            },
    {
        match self.phase {
            Phase::AwaitBanner => {
                self.phase = Phase::AwaitLoginReply;
                SessionAction::SendLogin(
                    login_action(self.config.ami.username.as_str(), self.config.ami.secret.as_str()),
                )
            },
            Phase::Ended => SessionAction::Continue,
            Phase::AwaitLoginReply => {
                match self.reader.feed_line(line) {
                    ReadStep::Pending => SessionAction::Continue,
                    ReadStep::Closed => {
                        self.phase = Phase::Ended;
                        SessionAction::Failed(closed_error())
                    },
                    ReadStep::Message(reply) => match login_result(&reply) {
                        Ok(()) => {
                            self.phase = Phase::Listening;
                            SessionAction::LoggedIn
                        },
                        Err(e) => {
                            self.phase = Phase::Ended;
                            SessionAction::Failed(e)
                        },
                    },
                }
            },
            Phase::Listening => {
                match self.reader.feed_line(line) {
                    ReadStep::Pending => SessionAction::Continue,
                    ReadStep::Closed => {
                        self.phase = Phase::Ended;
                        SessionAction::Failed(closed_error())
                    },
                    ReadStep::Message(msg) => {
                        match event_action(
                            &msg,
                            self.config.bridge.event_name.as_str(),
                            self.config.bridge.key_field.as_str(),
                        ) {
                            EventAction::Ignore => SessionAction::Continue,
                            EventAction::MissingKeyField => SessionAction::MissingKeyField,
                            EventAction::Press { dtmf, caller } => {
                                let press = keyboard.press_dtmf(dtmf.as_str());
                                SessionAction::Press { press, dtmf, caller }
                            },
                        }
                    },
                }
            },
        }
    }

    /// A new configuration `new` was loaded: the keymap and press duration
    /// take effect at once; where the connection settings changed from
    /// those the session connected with, the session ends so that a new one
    /// connects with them. The message under way is given up: the fields
    /// read of it are dropped, so the next message starts afresh.
    pub fn on_config_changed(&mut self, keyboard: &mut VirtualKeyboard, new: &Config) -> (r:
        SessionAction)
        ensures
            final(keyboard).keys() == resolved_keymap(new.keymap@),
            final(keyboard).hold_ms() == new.bridge.press_duration_ms,
            final(self).settings() == old(self).settings(),
            final(self).pending() == Map::<Seq<char>, Seq<char>>::empty(),
            if ami_differs(old(self).settings().ami, new.ami) {
                r is Reconnect && final(self).state() == Phase::Ended
            } else {
                r is Reloaded && final(self).state() == old(self).state()
            },
    {
        self.reader = MessageReader::new();
        if apply_reload(keyboard, &self.config, new) {
            self.phase = Phase::Ended;
            SessionAction::Reconnect
        } else {
            SessionAction::Reloaded
        }
    }

    /// No configuration can come any more: the session ends cleanly.
    pub fn on_config_closed(&mut self) -> (r: SessionAction)
        ensures
            r is Shutdown,
            final(self).state() == Phase::Ended,
            final(self).settings() == old(self).settings(),
    {
        self.phase = Phase::Ended;
        SessionAction::Shutdown
    }
}

/// The error for a connection that the manager closed.
fn closed_error() -> (r: String)
    ensures
        r@ == closed_text(),
{
    "Conexión AMI cerrada por el servidor".to_owned()
}

} // verus!
