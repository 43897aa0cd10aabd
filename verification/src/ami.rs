//! The Asterisk Manager Interface as the bridge speaks it: messages are
//! lines of `Key: Value` ended by an empty line; the bridge logs in with a
//! `Login` action and then turns the `UserEvent`s that carry a DTMF digit
//! into key presses. The socket itself is handled by the program around
//! the library, which hands each line it reads to a `MessageReader`.
use vstd::prelude::*;
use crate::config::AmiConfig;
use crate::strmap::{StrMap, texts_of};
use crate::text::{
    decimal, decimal_text, same_text, split_once, split_once_text, strip_line_end,
    strip_line_end_text, trim, trim_text,
};

verus! {

/// A manager message: each field name to its value.
pub type AmiMessage = StrMap<String>;

/// The field that a line of a message gives: the trimmed text before its
/// first `:` and the trimmed text after it, once the line end is taken
/// off; `None` for a line without `:`.
pub open spec fn line_field(line: Seq<char>) -> Option<(Seq<char>, Seq<char>)> {
    match split_once(strip_line_end(line), ':') {
        Some((k, v)) => Some((trim(k), trim(v))),
        None => None,
    }
}

/// A line that ends a message: nothing but its line end.
pub open spec fn is_blank_line(line: Seq<char>) -> bool {
    strip_line_end(line).len() == 0
}

/// The fields read of a message once the line `line`, which does not end
/// it, is added to the fields `pending`.
pub open spec fn pending_after(pending: Map<Seq<char>, Seq<char>>, line: Seq<char>) -> Map<
    Seq<char>,
    Seq<char>,
> {
    match line_field(line) {
        Some((k, v)) => pending.insert(k, v),
        None => pending,
    }
}

/// What reading one more line gave.
#[derive(Debug)]
pub enum ReadStep {
    /// The message is not complete yet: read another line.
    Pending,
    /// A complete message, with at least one field.
    Message(AmiMessage),
    /// The manager closed the connection.
    Closed,
}

/// Collects the lines of one manager message.
pub struct MessageReader {
    fields: AmiMessage,
}

impl MessageReader {
    /// The fields read so far of the message under way.
    pub closed spec fn pending(&self) -> Map<Seq<char>, Seq<char>> {
        texts_of(self.fields@)
    }

    /// A reader with no field read yet.
    pub fn new() -> (r: Self)
        ensures
            r.pending() == Map::<Seq<char>, Seq<char>>::empty(),
    {
        let r = MessageReader { fields: StrMap::new() };
        assert(r.pending() =~= Map::<Seq<char>, Seq<char>>::empty());
        r
    }

    /// Takes the next line read from the manager, with its line end, or
    /// `None` where the connection was closed. A line with a `:` adds its
    /// field (a later field replaces an earlier one of the same name); a
    /// line without one is dropped; an empty line ends the message, or is
    /// skipped where no field has been read yet.
    pub fn feed_line(&mut self, line: Option<&str>) -> (r: ReadStep)
        ensures
            match line {
                None => r is Closed && final(self).pending() == old(self).pending(),
                Some(l) => if is_blank_line(l@) {
                    if old(self).pending() == Map::<Seq<char>, Seq<char>>::empty() {
                        r is Pending && final(self).pending() == old(self).pending()
                    } else {
                        &&& r matches ReadStep::Message(m) && texts_of(m@) == old(self).pending()
                        &&& final(self).pending() == Map::<Seq<char>, Seq<char>>::empty()
                    }
                } else {
                    &&& r is Pending
                    &&& final(self).pending() == pending_after(old(self).pending(), l@)
                },
            },
    {
        match line {
            None => ReadStep::Closed,
            Some(l) => {
                let body = strip_line_end_text(l);
                if body.as_str().is_empty() {
                    if self.fields.is_empty() {
                        assert(old(self).pending() =~= Map::<Seq<char>, Seq<char>>::empty());
                        ReadStep::Pending
                    } else {
                        proof {
                            if old(self).pending() =~= Map::<Seq<char>, Seq<char>>::empty() {
                                assert forall|x: Seq<char>| !self.fields@.contains_key(x) by {
                                    assert(!old(self).pending().contains_key(x));
                                }
                                assert(self.fields@ =~= Map::<Seq<char>, String>::empty());
                            }
                        }
                        let mut done: AmiMessage = StrMap::new();
                        std::mem::swap(&mut done, &mut self.fields);
                        assert(self.pending() =~= Map::<Seq<char>, Seq<char>>::empty());
                        ReadStep::Message(done)
                    }
                } else {
                    match split_once_text(body.as_str(), ':') {
                        Some((k, v)) => {
                            let key = trim_text(k.as_str());
                            let value = trim_text(v.as_str());
                            self.fields.insert(key, value);
                            assert(self.pending() =~= old(self).pending().insert(
                                trim(k@),
                                trim(v@),
                            ));
                        },
                        None => {},
                    }
                    ReadStep::Pending
                }
            },
        }
    }
}

/// The text of the `Login` action for `username` and `secret`, asking for
/// the `user` and `call` event classes.
pub open spec fn login_text(username: Seq<char>, secret: Seq<char>) -> Seq<char> {
    "Action: Login\r\nUsername: "@ + username + "\r\nSecret: "@ + secret
        + "\r\nEvents: user,call\r\n\r\n"@
}

/// The `Login` action is four lines, each ended by a carriage return and a
/// line feed: `Action: Login`, the user name, the secret, and the event
/// classes `user,call`; and an empty line that ends it.
pub proof fn law_login_text_lines(username: Seq<char>, secret: Seq<char>)
    ensures
        login_text(username, secret) == "Action: Login"@ + "\r\n"@ + "Username: "@ + username
            + "\r\n"@ + "Secret: "@ + secret + "\r\n"@ + "Events: user,call"@ + "\r\n"@
            + "\r\n"@,
{
    reveal_strlit("Action: Login\r\nUsername: ");
    reveal_strlit("\r\nSecret: ");
    reveal_strlit("\r\nEvents: user,call\r\n\r\n");
    reveal_strlit("Action: Login");
    reveal_strlit("\r\n");
    reveal_strlit("Username: ");
    reveal_strlit("Secret: ");
    reveal_strlit("Events: user,call");
    assert(login_text(username, secret) =~= "Action: Login"@ + "\r\n"@ + "Username: "@
        + username + "\r\n"@ + "Secret: "@ + secret + "\r\n"@ + "Events: user,call"@
        + "\r\n"@ + "\r\n"@);
}

/// The `Login` action to send for `username` and `secret`.
pub fn login_action(username: &str, secret: &str) -> (r: String)
    ensures
        r@ == login_text(username@, secret@),
{
    let mut s = "Action: Login\r\nUsername: ".to_owned();
    s.append(username);
    s.append("\r\nSecret: ");
    s.append(secret);
    s.append("\r\nEvents: user,call\r\n\r\n");
    s
}

/// The manager accepted the login: the reply's `Response` is `Success`.
pub open spec fn login_accepted(reply: Map<Seq<char>, Seq<char>>) -> bool {
    reply.contains_key("Response"@) && reply["Response"@] == "Success"@
}

/// The error text for a refused login: the reply's `Message`, or a note
/// that the reason is unknown.
pub open spec fn login_refusal(reply: Map<Seq<char>, Seq<char>>) -> Seq<char> {
    "Login AMI falló: "@ + if reply.contains_key("Message"@) {
        reply["Message"@]
    } else {
        "razón desconocida"@
    }
}

/// A login is accepted exactly where the reply's `Response` field is
/// `Success`; a refusal reports the reply's `Message`, or that the reason
/// is unknown where the reply gives none.
pub proof fn law_login_outcome(reply: Map<Seq<char>, Seq<char>>)
    ensures
        login_accepted(reply) <==> (reply.contains_key("Response"@) && reply["Response"@]
            == "Success"@),
        reply.contains_key("Message"@) ==> login_refusal(reply) == "Login AMI falló: "@
            + reply["Message"@],
        !reply.contains_key("Message"@) ==> login_refusal(reply) == "Login AMI falló: "@
            + "razón desconocida"@,
{
}

/// Whether the reply to the `Login` action accepts it; where it does not,
/// the error says why.
pub fn login_result(reply: &AmiMessage) -> (r: Result<(), String>)
    ensures
        match r {
            Ok(()) => login_accepted(texts_of(reply@)),
            Err(e) => !login_accepted(texts_of(reply@)) && e@ == login_refusal(texts_of(reply@)),
        },
{
    let accepted = match reply.get("Response") {
        Some(v) => same_text(v.as_str(), "Success"),
        None => false,
    };
    if accepted {
        Ok(())
    } else {
        let mut e = "Login AMI falló: ".to_owned();
        match reply.get("Message") {
            Some(m) => e.append(m.as_str()),
            None => e.append("razón desconocida"),
        }
        Err(e)
    }
}

/// What the bridge does with a manager event.
#[derive(Debug)]
pub enum EventAction {
    /// Not the user event that carries digits.
    Ignore,
    /// The user event, but without the field that holds the digit.
    MissingKeyField,
    /// Press the key for `dtmf`, sent by `caller`.
    Press { dtmf: String, caller: String },
}

/// `msg` is the user event named `event_name`.
pub open spec fn is_key_event(msg: Map<Seq<char>, Seq<char>>, event_name: Seq<char>) -> bool {
    &&& msg.contains_key("Event"@)
    &&& msg["Event"@] == "UserEvent"@
    &&& msg.contains_key("UserEvent"@)
    &&& msg["UserEvent"@] == event_name
}

/// The sender of the message `msg`, or `?` where it does not say.
pub open spec fn caller_of(msg: Map<Seq<char>, Seq<char>>) -> Seq<char> {
    if msg.contains_key("Caller"@) {
        msg["Caller"@]
    } else {
        "?"@
    }
}

/// Whatever event name is configured, a message whose `Event` is
/// `UserEvent` and whose `UserEvent` is that name is a key event, and no
/// other message is one.
pub proof fn law_key_event_is_the_configured_user_event(
    msg: Map<Seq<char>, Seq<char>>,
    event_name: Seq<char>,
)
    ensures
        (msg.contains_key("Event"@) && msg["Event"@] == "UserEvent"@ && msg.contains_key(
            "UserEvent"@,
        ) && msg["UserEvent"@] == event_name) ==> is_key_event(msg, event_name),
        is_key_event(msg, event_name) ==> msg.contains_key("UserEvent"@) && msg["UserEvent"@]
            == event_name && msg.contains_key("Event"@) && msg["Event"@] == "UserEvent"@,
{
}

/// The sender of a key event is its `Caller` field, or `?` where it has
/// none.
pub proof fn law_caller(msg: Map<Seq<char>, Seq<char>>)
    ensures
        msg.contains_key("Caller"@) ==> caller_of(msg) == msg["Caller"@],
        !msg.contains_key("Caller"@) ==> caller_of(msg) == "?"@,
{
}

/// What to do with the manager message `msg`, where digits come in the
/// user event `event_name`, in its field `key_field`.
pub fn event_action(msg: &AmiMessage, event_name: &str, key_field: &str) -> (r: EventAction)
    ensures
        (texts_of(msg@).contains_key("Event"@) && texts_of(msg@)["Event"@] == "UserEvent"@
            && texts_of(msg@).contains_key("UserEvent"@) && texts_of(msg@)["UserEvent"@]
            == event_name@ && msg@.contains_key(key_field@)) ==> (r matches EventAction::Press {
            dtmf,
            caller,
        } && dtmf@ == texts_of(msg@)[key_field@]),
        !(texts_of(msg@).contains_key("UserEvent"@) && texts_of(msg@)["UserEvent"@]
            == event_name@) ==> r is Ignore,
        match r {
            EventAction::Ignore => !is_key_event(texts_of(msg@), event_name@),
            EventAction::MissingKeyField => is_key_event(texts_of(msg@), event_name@)
                && !msg@.contains_key(key_field@),
            EventAction::Press { dtmf, caller } => {
                &&& is_key_event(texts_of(msg@), event_name@)
                &&& msg@.contains_key(key_field@)
                &&& dtmf@ == texts_of(msg@)[key_field@]
                &&& caller@ == caller_of(texts_of(msg@))
            },
        },
{
    match msg.get("Event") {
        Some(evt) => {
            if !same_text(evt.as_str(), "UserEvent") {
                return EventAction::Ignore;
            }
        },
        None => {
            return EventAction::Ignore;
        },
    }
    match msg.get("UserEvent") {
        Some(user_evt) => {
            if !same_text(user_evt.as_str(), event_name) {
                return EventAction::Ignore;
            }
        },
        None => {
            return EventAction::Ignore;
        },
    }
    match msg.get(key_field) {
        Some(dtmf) => {
            let caller = match msg.get("Caller") {
                Some(c) => c.clone(),
                None => "?".to_owned(),
            };
            EventAction::Press { dtmf: dtmf.clone(), caller }
        },
        None => EventAction::MissingKeyField,
    }
}

/// The address to connect to: the host, a colon and the port in decimal.
pub fn ami_address(ami: &AmiConfig) -> (r: String)
    ensures
        r@ == ami.host@ + ":"@ + decimal(ami.port as nat),
{
    let mut s = ami.host.clone();
    s.append(":");
    let port = decimal_text(ami.port as u64);
    s.append(port.as_str());
    s
}

} // verus!
