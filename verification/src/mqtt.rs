//! The MQTT side of the simulator: the connection status, the topics
//! readings go out on and commands come in on, and what each event from
//! the connection does to the simulator.
use vstd::prelude::*;

use crate::state::{has_serial, zeroed_by_serial, AppState};
use crate::text::{contains_char, str_eq, strip_prefix, strip_suffix, trim, trimmed};

verus! {

/// A serial as it may stand in a topic: one level, so not empty and
/// without `/`.
pub open spec fn topic_level(s: Seq<char>) -> bool {
    s.len() > 0 && !s.contains('/')
}

/// The topic on which the scale `serial` takes commands:
/// `{prefix}/{serial}/command`.
pub open spec fn command_topic(prefix: Seq<char>, serial: Seq<char>) -> Seq<char> {
    prefix + "/"@ + serial + "/command"@
}

/// Extracts the serial number from a command topic of the form
/// `{prefix}/{serial}/command`; `None` for any other topic.
pub fn command_serial<'a>(topic: &'a str, prefix: &str) -> (r: Option<&'a str>)
    ensures
        r matches Some(serial) ==> topic_level(serial@) && topic@ == command_topic(
            prefix@,
            serial@,
        ),
        forall|s: Seq<char>|
            topic_level(s) && topic@ == #[trigger] command_topic(prefix@, s) ==> (r matches Some(
                serial,
            ) && serial@ == s),
{
    proof {
        reveal_strlit("/");
        reveal_strlit("/command");
    }
    let rest = match strip_prefix(topic, prefix) {
        Some(rest) => rest,
        None => return None,
    };
    let rest = match strip_prefix(rest, "/") {
        Some(rest) => rest,
        None => return None,
    };
    let serial = match strip_suffix(rest, "/command") {
        Some(serial) => serial,
        None => return None,
    };
    if serial.is_empty() || contains_char(serial, '/') {
        return None;
    }
    proof {
        assert(topic@ =~= command_topic(prefix@, serial@));
    }
    Some(serial)
}

/// The state of the connection to the broker.
#[derive(Clone, Debug)]
pub enum MqttStatus {
    Connecting,
    Connected,
    /// Part of the status display and its colours; with no reconnecting,
    /// nothing enters it yet.
    Disconnected,
    Error(String),
}

/// How a status reads on screen.
pub open spec fn status_text(status: MqttStatus) -> Seq<char> {
    match status {
        MqttStatus::Connecting => "Connecting"@,
        MqttStatus::Connected => "Connected"@,
        MqttStatus::Disconnected => "Disconnected"@,
        MqttStatus::Error(e) => "Error: "@ + e@,
    }
}

impl MqttStatus {
    /// How the status reads on screen: its name, and for an error the
    /// error's text after `Error: `.
    pub fn describe(&self) -> (r: String)
        ensures
            r@ == status_text(*self),
    {
        match self {
            MqttStatus::Connecting => String::from_str("Connecting"),
            MqttStatus::Connected => String::from_str("Connected"),
            MqttStatus::Disconnected => String::from_str("Disconnected"),
            MqttStatus::Error(e) => String::from_str("Error: ").concat(e.as_str()),
        }
    }
}

/// The text of a payload: the bytes read as UTF-8, each invalid sequence
/// read as U+FFFD.
pub uninterp spec fn lossy_utf8(bytes: Seq<u8>) -> Seq<char>;

/// Wraps `String::from_utf8_lossy`: the payload's text, which is the
/// decoded text itself whenever the bytes are valid UTF-8. What it gives
/// for invalid bytes is named, not stated.
#[verifier::external_body]
fn payload_text(bytes: &[u8]) -> (r: String)
    ensures
        r@ == lossy_utf8(bytes@),
        vstd::utf8::valid_utf8(bytes@) ==> r@ == vstd::utf8::decode_utf8(bytes@),
{
    String::from_utf8_lossy(bytes).into_owned()
}

/// The command that zeroes a scale: the text `Z`, with any surrounding
/// white space.
pub open spec fn is_zero_command(text: Seq<char>) -> bool {
    trimmed(text) == "Z"@
}

/// `topic` is the command topic, under `prefix`, of the scale `serial`.
pub open spec fn commands_serial(topic: Seq<char>, prefix: Seq<char>, serial: Seq<char>) -> bool {
    topic_level(serial) && topic == command_topic(prefix, serial)
}

/// Applies a command whose text is `text`, received on `topic`: a zero
/// command (the text, trimmed, is `Z`) on the command topic of a
/// scale zeroes that scale; anything else changes nothing. Returns whether
/// a scale was zeroed.
pub fn apply_command_text(app: &mut AppState, topic: &str, prefix: &str, text: &str) -> (zeroed:
    bool)
    ensures
        forall|s: Seq<char>|
            #[trigger] commands_serial(topic@, prefix@, s) && is_zero_command(text@) ==> zeroed
                == has_serial(old(app).scales@, s) && zeroed_by_serial(
                old(app).scales@,
                final(app).scales@,
                s,
            ),
        (forall|s: Seq<char>| !#[trigger] commands_serial(topic@, prefix@, s)) || !is_zero_command(
            text@,
        ) ==> !zeroed && final(app).scales@ == old(app).scales@,
        final(app).selected == old(app).selected,
        final(app).same_forms(*old(app)),
        old(app).wf() ==> final(app).wf(),
{
    proof {
        reveal_strlit("Z");
    }
    match command_serial(topic, prefix) {
        Some(serial) => {
            if str_eq(trim(text), "Z") {
                let zeroed = app.zero_by_serial(serial);
                proof {
                    assert(commands_serial(topic@, prefix@, serial@));
                }
                zeroed
            } else {
                false
            }
        },
        None => false,
    }
}

/// Applies a message received on `topic` with the bytes `payload`, read
/// as UTF-8 text, as `apply_command_text` does; a payload of valid UTF-8
/// is read as exactly the text it encodes.
pub fn apply_command(app: &mut AppState, topic: &str, prefix: &str, payload: &[u8]) -> (zeroed:
    bool)
    ensures
        vstd::utf8::valid_utf8(payload@) ==> lossy_utf8(payload@) == vstd::utf8::decode_utf8(
            payload@,
        ),
        forall|s: Seq<char>|
            #[trigger] commands_serial(topic@, prefix@, s) && is_zero_command(
                lossy_utf8(payload@),
            ) ==> zeroed == has_serial(old(app).scales@, s) && zeroed_by_serial(
                old(app).scales@,
                final(app).scales@,
                s,
            ),
        (forall|s: Seq<char>| !#[trigger] commands_serial(topic@, prefix@, s)) || !is_zero_command(
            lossy_utf8(payload@),
        ) ==> !zeroed && final(app).scales@ == old(app).scales@,
        final(app).selected == old(app).selected,
        final(app).same_forms(*old(app)),
        old(app).wf() ==> final(app).wf(),
{
    let text = payload_text(payload);
    apply_command_text(app, topic, prefix, text.as_str())
}

/// The topic on which the scale `serial` publishes: `{prefix}/{serial}`.
pub open spec fn reading_topic(prefix: Seq<char>, serial: Seq<char>) -> Seq<char> {
    prefix + "/"@ + serial
}

/// The topic the scale `serial` publishes its readings on.
pub fn publish_topic(prefix: &str, serial: &str) -> (r: String)
    ensures
        r@ == reading_topic(prefix@, serial@),
{
    String::from_str(prefix).concat("/").concat(serial)
}

/// The subscription that covers the command topics of every scale:
/// `{prefix}/+/command`.
pub fn command_filter(prefix: &str) -> (r: String)
    ensures
        r@ == prefix@ + "/+/command"@,
{
    String::from_str(prefix).concat("/+/command")
}

/// For each scale, in order, the topic its reading goes out on and its
/// serial.
pub fn outgoing(app: &AppState, prefix: &str) -> (r: Vec<(String, String)>)
    ensures
        r@.len() == app.scales@.len(),
        forall|i: int|
            0 <= i < r@.len() ==> #[trigger] r@[i].0@ == reading_topic(
                prefix@,
                app.scales@[i].serial_number@,
            ) && r@[i].1@ == app.scales@[i].serial_number@,
{
    let mut r: Vec<(String, String)> = Vec::new();
    let mut i: usize = 0;
    while i < app.scales.len()
        invariant
            i <= app.scales@.len(),
            r@.len() == i,
            forall|j: int|
                0 <= j < i ==> #[trigger] r@[j].0@ == reading_topic(
                    prefix@,
                    app.scales@[j].serial_number@,
                ) && r@[j].1@ == app.scales@[j].serial_number@,
        decreases app.scales@.len() - i,
    {
        let serial = app.scales[i].serial_number.as_str();
        r.push((publish_topic(prefix, serial), String::from_str(serial)));
        i = i + 1;
    }
    r
}

/// What the connection reports.
pub enum ConnectionEvent {
    /// The broker accepted the connection.
    ConnAck,
    /// A message arrived.
    Publish { topic: String, payload: Vec<u8> },
    /// The connection failed, with the error's text.
    Failure(String),
    /// Anything else.
    Other,
}

/// Reacts to one event of the connection: an accepted connection sets the
/// status to `Connected` and asks the caller to subscribe to the command
/// filter (the returned `true`); a message is applied as a command; a
/// failure sets the status to its error; anything else changes nothing.
pub fn on_connection_event(
    app: &mut AppState,
    status: &mut MqttStatus,
    prefix: &str,
    event: &ConnectionEvent,
) -> (subscribe: bool)
    ensures
        subscribe == (*event is ConnAck),
        match *event {
            ConnectionEvent::ConnAck => *final(status) is Connected && final(app).scales@ == old(
                app,
            ).scales@,
            ConnectionEvent::Publish { topic, payload } => {
                &&& *final(status) == *old(status)
                &&& vstd::utf8::valid_utf8(payload@) ==> lossy_utf8(payload@)
                    == vstd::utf8::decode_utf8(payload@)
                &&& forall|s: Seq<char>|
                    #[trigger] commands_serial(topic@, prefix@, s) && is_zero_command(
                        lossy_utf8(payload@),
                    ) ==> zeroed_by_serial(old(app).scales@, final(app).scales@, s)
                &&& (forall|s: Seq<char>| !#[trigger] commands_serial(topic@, prefix@, s))
                    || !is_zero_command(lossy_utf8(payload@)) ==> final(app).scales@ == old(
                    app,
                ).scales@
            },
            ConnectionEvent::Failure(e) => *final(status) == MqttStatus::Error(e)
                && final(app).scales@ == old(app).scales@,
            ConnectionEvent::Other => *final(status) == *old(status) && final(app).scales@ == old(
                app,
            ).scales@,
        },
        final(app).selected == old(app).selected,
        final(app).same_forms(*old(app)),
        old(app).wf() ==> final(app).wf(),
{
    match event {
        ConnectionEvent::ConnAck => {
            *status = MqttStatus::Connected;
            true
        },
        ConnectionEvent::Publish { topic, payload } => {
            apply_command(app, topic.as_str(), prefix, payload.as_slice());
            false
        },
        ConnectionEvent::Failure(e) => {
            *status = MqttStatus::Error(e.clone());
            false
        },
        ConnectionEvent::Other => false,
    }
}

/// How the connection to the broker is carried.
#[derive(Clone, Copy, Debug, PartialEq, Eq, Structural)]
pub enum TransportKind {
    Tcp,
    Ws,
    Wss,
}

/// The transport a broker address calls for: a `wss://` URL is secure
/// websocket, a `ws://` URL plain websocket, anything else a TCP host.
pub fn transport_for(broker: &str) -> (t: TransportKind)
    ensures
        t == (if "wss://"@.is_prefix_of(broker@) {
            TransportKind::Wss
        } else if "ws://"@.is_prefix_of(broker@) {
            TransportKind::Ws
        } else {
            TransportKind::Tcp
        }),
{
    if strip_prefix(broker, "wss://").is_some() {
        TransportKind::Wss
    } else if strip_prefix(broker, "ws://").is_some() {
        TransportKind::Ws
    } else {
        TransportKind::Tcp
    }
}

/// The login to present to the broker: only when both a username and a
/// password are given.
pub fn credentials(username: Option<String>, password: Option<String>) -> (r: Option<
    (String, String),
>)
    ensures
        r == (match (username, password) {
            (Some(u), Some(p)) => Some((u, p)),
            _ => None,
        }),
{
    match (username, password) {
        (Some(u), Some(p)) => Some((u, p)),
        _ => None,
    }
}

} // verus!
