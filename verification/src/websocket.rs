//! The broadcast hub: the message that goes to the overlays, its form on the
//! wire, the channel that fans it out, and what each connection does with
//! what it receives.
//!
//! The hub owns a bounded broadcast channel of `tokio`. Publishing never
//! waits and never fails; a subscriber sees what is published after it
//! subscribed, and one that falls too far behind loses its oldest messages
//! and goes on with the rest. Accepting connections and moving frames is
//! left to the caller, which asks the library what to do with each event.

use crate::config::ToastDirection;
use crate::text::{decimal, decimal_digits, join};
use tokio::sync::broadcast::Receiver;
use tokio::sync::broadcast::Sender;
use vstd::prelude::*;
use vstd::string::StringExecFns;

verus! {

/// The local port on which the overlays connect.
pub const WEBSOCKET_PORT: u16 = 7981;

/// How many messages a subscriber may fall behind before it loses the
/// oldest ones.
pub const CHANNEL_CAPACITY: usize = 100;

/// `tokio::sync::broadcast::Sender`, the sending half of a broadcast
/// channel. Nothing is known of what it holds.
#[verifier::external_type_specification]
#[verifier::external_body]
#[verifier::reject_recursive_types(T)]
pub struct ExSender<T>(Sender<T>);

/// `tokio::sync::broadcast::Receiver`, the receiving half of a broadcast
/// channel. Nothing is known of what it holds.
#[verifier::external_type_specification]
#[verifier::external_body]
#[verifier::reject_recursive_types(T)]
pub struct ExReceiver<T>(Receiver<T>);

/// `serde_json::Error`, the failure to write or read JSON.
#[verifier::external_type_specification]
#[verifier::external_body]
pub struct ExJsonError(serde_json::Error);

/// One toast, as the overlay shows it.
#[derive(Debug, Clone)]
pub struct ToastMessage {
    pub title: String,
    pub content: String,
    pub color_1: String,
    pub color_2: String,
    pub text_color: String,
    /// Milliseconds the toast stays on screen.
    pub duration: u32,
    pub enable_sound: bool,
    /// Where the overlay fetches the sound from, if it plays one.
    pub sound_url: Option<String>,
    pub direction: ToastDirection,
}

/// A message on the wire: its kind and what it carries.
#[derive(Debug, Clone)]
pub struct WebSocketMessage {
    /// Written as `type` on the wire.
    pub kind: String,
    pub data: ToastMessage,
}

/// A `ToastMessage` as plain values.
pub struct ToastView {
    pub title: Seq<char>,
    pub content: Seq<char>,
    pub color_1: Seq<char>,
    pub color_2: Seq<char>,
    pub text_color: Seq<char>,
    pub duration: nat,
    pub enable_sound: bool,
    pub sound_url: Option<Seq<char>>,
    pub direction: ToastDirection,
}

/// A `WebSocketMessage` as plain values.
pub struct MessageView {
    pub kind: Seq<char>,
    pub data: ToastView,
}

impl View for ToastMessage {
    type V = ToastView;

    open spec fn view(&self) -> ToastView {
        ToastView {
            title: self.title@,
            content: self.content@,
            color_1: self.color_1@,
            color_2: self.color_2@,
            text_color: self.text_color@,
            duration: self.duration as nat,
            enable_sound: self.enable_sound,
            sound_url: match self.sound_url {
                Some(url) => Some(url@),
                None => None,
            },
            direction: self.direction,
        }
    }
}

impl View for WebSocketMessage {
    type V = MessageView;

    open spec fn view(&self) -> MessageView {
        MessageView { kind: self.kind@, data: self.data@ }
    }
}

pub const MILLIS_PER_SECOND: u32 = 1000;

/// The text as a JSON string, as `serde_json::to_string` writes it:
/// between double quotes, with the characters that JSON does not take as
/// they are written as escapes.
pub uninterp spec fn json_string(s: Seq<char>) -> Seq<char>;

/// Writes a text as a JSON string with `serde_json::to_string`. For a text
/// the call has no way to fail: it writes into a vector in memory, and a
/// text is neither a map nor a value that refuses to be written. What comes
/// back is the text's JSON string.
#[verifier::external_body]
fn to_json_string(s: &str) -> (r: Result<String, serde_json::Error>)
    ensures
        r is Ok,
        r matches Ok(quoted) ==> quoted@ == json_string(s@),
{
    serde_json::to_string(s)
}

pub open spec fn json_bool(b: bool) -> Seq<char> {
    if b {
        "true"@
    } else {
        "false"@
    }
}

/// The parts of a message as they stand on the wire, each already written
/// as JSON.
pub struct FrameParts {
    pub kind: Seq<char>,
    pub title: Seq<char>,
    pub content: Seq<char>,
    pub color_1: Seq<char>,
    pub color_2: Seq<char>,
    pub text_color: Seq<char>,
    pub duration: Seq<char>,
    pub enable_sound: Seq<char>,
    pub sound_url: Seq<char>,
    pub direction: Seq<char>,
}

/// One frame: an object with the message's kind under `type` and the toast
/// under `data`, the toast's fields in their fixed order, without any white
/// space.
pub open spec fn frame_text(p: FrameParts) -> Seq<char> {
    "{\"type\":"@ + p.kind + ",\"data\":{\"title\":"@ + p.title + ",\"content\":"@ + p.content
        + ",\"color_1\":"@ + p.color_1 + ",\"color_2\":"@ + p.color_2 + ",\"text_color\":"@
        + p.text_color + ",\"duration\":"@ + p.duration + ",\"enable_sound\":"@ + p.enable_sound
        + ",\"sound_url\":"@ + p.sound_url + ",\"direction\":"@ + p.direction + "}}"@
}

impl MessageView {
    /// The parts of this message, written as JSON.
    pub open spec fn parts(self) -> FrameParts {
        FrameParts {
            kind: json_string(self.kind),
            title: json_string(self.data.title),
            content: json_string(self.data.content),
            color_1: json_string(self.data.color_1),
            color_2: json_string(self.data.color_2),
            text_color: json_string(self.data.text_color),
            duration: decimal_digits(self.data.duration),
            enable_sound: json_bool(self.data.enable_sound),
            sound_url: match self.data.sound_url {
                Some(url) => json_string(url),
                None => "null"@,
            },
            direction: json_string(self.data.direction.name()),
        }
    }

    /// The message as one frame on the wire.
    pub open spec fn wire_text(self) -> Seq<char> {
        frame_text(self.parts())
    }
}

/// Puts one frame together from its parts, each already written as JSON.
pub fn frame(
    kind: &str,
    title: &str,
    content: &str,
    color_1: &str,
    color_2: &str,
    text_color: &str,
    duration: &str,
    enable_sound: &str,
    sound_url: &str,
    direction: &str,
) -> (r: String)
    ensures
        r@ == frame_text(
            FrameParts {
                kind: kind@,
                title: title@,
                content: content@,
                color_1: color_1@,
                color_2: color_2@,
                text_color: text_color@,
                duration: duration@,
                enable_sound: enable_sound@,
                sound_url: sound_url@,
                direction: direction@,
            },
        ),
{
    let mut r = join("{\"type\":", kind);
    r.append(",\"data\":{\"title\":");
    r.append(title);
    r.append(",\"content\":");
    r.append(content);
    r.append(",\"color_1\":");
    r.append(color_1);
    r.append(",\"color_2\":");
    r.append(color_2);
    r.append(",\"text_color\":");
    r.append(text_color);
    r.append(",\"duration\":");
    r.append(duration);
    r.append(",\"enable_sound\":");
    r.append(enable_sound);
    r.append(",\"sound_url\":");
    r.append(sound_url);
    r.append(",\"direction\":");
    r.append(direction);
    r.append("}}");
    r
}

impl WebSocketMessage {
    /// A message of the kind `toast`. The duration is given in seconds and
    /// carried in milliseconds.
    pub fn new_toast(
        title: String,
        content: String,
        color_1: String,
        color_2: String,
        text_color: String,
        duration_seconds: u32,
        enable_sound: bool,
        sound_url: Option<String>,
        direction: ToastDirection,
    ) -> (r: Self)
        requires
            duration_seconds * MILLIS_PER_SECOND <= u32::MAX,
        ensures
            r.kind@ == "toast"@,
            r.data.title == title,
            r.data.content == content,
            r.data.color_1 == color_1,
            r.data.color_2 == color_2,
            r.data.text_color == text_color,
            r.data.duration == duration_seconds * MILLIS_PER_SECOND,
            r.data.enable_sound == enable_sound,
            r.data.sound_url == sound_url,
            r.data.direction == direction,
    {
        WebSocketMessage {
            kind: "toast".to_owned(),
            data: ToastMessage {
                title,
                content,
                color_1,
                color_2,
                text_color,
                duration: duration_seconds * MILLIS_PER_SECOND,
                enable_sound,
                sound_url,
                direction,
            },
        }
    }

    /// The message as the text of one frame. It always succeeds: every
    /// text of a message can be written as JSON.
    pub fn to_message(&self) -> (r: Result<String, serde_json::Error>)
        ensures
            r matches Ok(text) && text@ == self@.wire_text(),
    {
        let kind = match to_json_string(self.kind.as_str()) {
            Ok(quoted) => quoted,
            Err(e) => {
                return Err(e);
            },
        };
        let title = match to_json_string(self.data.title.as_str()) {
            Ok(quoted) => quoted,
            Err(e) => {
                return Err(e);
            },
        };
        let content = match to_json_string(self.data.content.as_str()) {
            Ok(quoted) => quoted,
            Err(e) => {
                return Err(e);
            },
        };
        let color_1 = match to_json_string(self.data.color_1.as_str()) {
            Ok(quoted) => quoted,
            Err(e) => {
                return Err(e);
            },
        };
        let color_2 = match to_json_string(self.data.color_2.as_str()) {
            Ok(quoted) => quoted,
            Err(e) => {
                return Err(e);
            },
        };
        let text_color = match to_json_string(self.data.text_color.as_str()) {
            Ok(quoted) => quoted,
            Err(e) => {
                return Err(e);
            },
        };
        let sound_url = match &self.data.sound_url {
            Some(url) => match to_json_string(url.as_str()) {
                Ok(quoted) => quoted,
                Err(e) => {
                    return Err(e);
                },
            },
            None => "null".to_owned(),
        };
        let direction = match to_json_string(self.data.direction.wire_name()) {
            Ok(quoted) => quoted,
            Err(e) => {
                return Err(e);
            },
        };
        let duration = decimal(self.data.duration as u64);
        let enable_sound = if self.data.enable_sound {
            "true"
        } else {
            "false"
        };
        Ok(
            frame(
                kind.as_str(),
                title.as_str(),
                content.as_str(),
                color_1.as_str(),
                color_2.as_str(),
                text_color.as_str(),
                duration.as_str(),
                enable_sound,
                sound_url.as_str(),
                direction.as_str(),
            ),
        )
    }
}

/// The capacity that the channel of a sending half was made with: the
/// number handed to `tokio::sync::broadcast::channel`. A subscriber can fall
/// behind by at least this many messages before it loses the oldest ones
/// (`tokio` rounds the number up to a power of two). Every handle on a
/// channel gives the same capacity.
pub uninterp spec fn sender_capacity(sender: Sender<WebSocketMessage>) -> nat;

/// The capacity that the channel of a receiving half was made with.
pub uninterp spec fn receiver_capacity(receiver: Receiver<WebSocketMessage>) -> nat;

/// Opens a broadcast channel with `tokio::sync::broadcast::channel` and
/// keeps its sending half; the first receiver is let go, so the channel
/// starts without a subscriber. The channel is made with the capacity asked
/// for, which must lie between 1 and half of `usize::MAX`.
#[verifier::external_body]
fn open_channel(capacity: usize) -> (r: Sender<WebSocketMessage>)
    requires
        0 < capacity <= usize::MAX / 2,
    ensures
        sender_capacity(r) == capacity,
{
    tokio::sync::broadcast::channel(capacity).0
}

/// Hands a message to `Sender::send`, which does not wait. Where it
/// succeeds it answers with the number of subscribers, which is then at
/// least one; where it fails, for want of a subscriber, the message comes
/// back.
#[verifier::external_body]
fn send_to_all(sender: &Sender<WebSocketMessage>, message: WebSocketMessage) -> (r: Result<
    usize,
    WebSocketMessage,
>)
    ensures
        r matches Ok(subscribers) ==> subscribers >= 1,
        r matches Err(unsent) ==> unsent == message,
{
    sender.send(message).map_err(|e| e.0)
}

/// Another handle, made by `Sender::clone`. It is a handle on the same
/// channel, so the channel it sends on was made with the same capacity.
#[verifier::external_body]
fn clone_sender(sender: &Sender<WebSocketMessage>) -> (r: Sender<WebSocketMessage>)
    ensures
        sender_capacity(r) == sender_capacity(*sender),
{
    sender.clone()
}

/// A new subscription, made by `Sender::subscribe`. It receives from the
/// sender's channel, so the channel it reads was made with the same
/// capacity.
#[verifier::external_body]
fn subscribe_to(sender: &Sender<WebSocketMessage>) -> (r: Receiver<WebSocketMessage>)
    ensures
        receiver_capacity(r) == sender_capacity(*sender),
{
    sender.subscribe()
}

/// What a connection's reading side saw.
#[derive(Debug, Clone, Copy, PartialEq, Eq, Structural)]
pub enum InboundEvent {
    /// A text frame came in.
    Text,
    /// The peer asked to close.
    Close,
    /// Reading failed.
    Failed,
    /// The stream of frames ended.
    Ended,
    /// Any other frame came in.
    Other,
}

impl InboundEvent {
    /// Whether the reading side stops at this event: it stops when the
    /// peer closes, when reading fails and when the frames end.
    pub open spec fn ends_reading(self) -> bool {
        self == InboundEvent::Close || self == InboundEvent::Failed || self == InboundEvent::Ended
    }
}

/// What a connection's subscription handed over.
#[derive(Debug, Clone)]
pub enum OutboundEvent {
    /// A published message.
    Message(WebSocketMessage),
    /// The connection fell too far behind and lost its oldest messages.
    Lagged,
    /// The channel is gone.
    Closed,
}

/// What the writing side does next.
#[derive(Debug, Clone, PartialEq, Eq)]
pub enum WriteStep {
    /// Send this text as one frame.
    Send(String),
    /// Send nothing and go on.
    Skip,
    /// Stop writing.
    Stop,
}

/// One connection of an overlay: whether its reading side and its writing
/// side are still at work.
#[derive(Debug)]
pub struct Connection {
    reading: bool,
    writing: bool,
}

/// A `Connection` as plain values.
pub struct ConnectionView {
    pub reading: bool,
    pub writing: bool,
}

impl View for Connection {
    type V = ConnectionView;

    closed spec fn view(&self) -> ConnectionView {
        ConnectionView { reading: self.reading, writing: self.writing }
    }
}

pub struct WebSocketServer {
    port: u16,
    sender: Sender<WebSocketMessage>,
    client_count: usize,
}

/// The number of deliveries that the channel's answer to a message stands
/// for: none where the message came back for want of a subscriber.
pub fn delivered_to(outcome: Result<usize, WebSocketMessage>) -> (r: usize)
    ensures
        r == match outcome {
            Ok(subscribers) => subscribers,
            Err(_) => 0,
        },
{
    match outcome {
        Ok(subscribers) => subscribers,
        Err(_) => 0,
    }
}

/// Publishes a message on a channel and says to how many subscribers it
/// went. It does not wait, and it does not fail: without a subscriber nobody
/// sees the message, and the answer is zero.
pub fn publish_on(sender: &Sender<WebSocketMessage>, message: WebSocketMessage) -> (r: usize) {
    delivered_to(send_to_all(sender, message))
}

/// The count after one more connection.
pub open spec fn count_after_connect(count: nat) -> nat {
    if count < usize::MAX {
        count + 1
    } else {
        count
    }
}

/// The count after one connection less; it never falls below zero.
pub open spec fn count_after_disconnect(count: nat) -> nat {
    if count > 0 {
        (count - 1) as nat
    } else {
        0
    }
}

/// The live connections after the events `events` came in on a connection,
/// one after the other.
pub open spec fn count_after_inbound(
    connection: ConnectionView,
    count: nat,
    events: Seq<InboundEvent>,
) -> nat
    decreases events.len(),
{
    if events.len() == 0 {
        count
    } else if connection.reading && events[0].ends_reading() {
        count_after_inbound(
            ConnectionView { reading: false, ..connection },
            count_after_disconnect(count),
            events.drop_first(),
        )
    } else {
        count_after_inbound(connection, count, events.drop_first())
    }
}

impl WebSocketServer {
    pub closed spec fn spec_port(&self) -> u16 {
        self.port
    }

    /// The number of live connections.
    pub closed spec fn clients(&self) -> nat {
        self.client_count as nat
    }

    /// The capacity that the hub's channel was made with.
    pub closed spec fn capacity(&self) -> nat {
        sender_capacity(self.sender)
    }

    /// A hub for the overlays to connect to, with an empty channel of the
    /// fixed capacity and no connection.
    pub fn new() -> (r: Self)
        ensures
            r.spec_port() == WEBSOCKET_PORT,
            r.clients() == 0,
            r.capacity() == CHANNEL_CAPACITY,
    {
        WebSocketServer {
            port: WEBSOCKET_PORT,
            sender: open_channel(CHANNEL_CAPACITY),
            client_count: 0,
        }
    }

    pub fn port(&self) -> (r: u16)
        ensures
            r == self.spec_port(),
    {
        self.port
    }

    /// A handle with which to publish on the hub's channel, which is
    /// bounded by the hub's capacity.
    pub fn get_sender(&self) -> (r: Sender<WebSocketMessage>)
        ensures
            sender_capacity(r) == self.capacity(),
    {
        clone_sender(&self.sender)
    }

    /// A subscription to what is published on the hub's channel from now
    /// on. The subscriber may fall behind by the hub's capacity before it
    /// loses the oldest messages.
    pub fn subscribe(&self) -> (r: Receiver<WebSocketMessage>)
        ensures
            receiver_capacity(r) == self.capacity(),
    {
        subscribe_to(&self.sender)
    }

    pub fn _get_client_count(&self) -> (r: usize)
        ensures
            r == self.clients(),
    {
        self.client_count
    }

    /// Publishes a message to all current subscribers and says to how many
    /// it went. It does not wait, and it does not fail: without a
    /// subscriber nobody sees the message, and the answer is zero.
    pub fn publish(&self, message: WebSocketMessage) -> (r: usize) {
        publish_on(&self.sender, message)
    }

    /// Takes a new connection up: it counts as live, and both of its sides
    /// are at work.
    pub fn client_connected(&mut self) -> (r: Connection)
        ensures
            final(self).clients() == count_after_connect(old(self).clients()),
            final(self).spec_port() == old(self).spec_port(),
            final(self).capacity() == old(self).capacity(),
            r@ == (ConnectionView { reading: true, writing: true }),
    {
        if self.client_count < usize::MAX {
            self.client_count = self.client_count + 1;
        }
        Connection { reading: true, writing: true }
    }

    /// Hands an event of a connection's reading side to the hub. The event
    /// that ends the reading takes the connection out of the count; this
    /// happens once for a connection, however many events follow.
    pub fn on_inbound(&mut self, connection: &mut Connection, event: InboundEvent) -> (goes_on:
        bool)
        ensures
            goes_on == final(connection)@.reading,
            final(connection)@.writing == old(connection)@.writing,
            final(connection)@.reading == (old(connection)@.reading && !event.ends_reading()),
            final(self).spec_port() == old(self).spec_port(),
            final(self).capacity() == old(self).capacity(),
            final(self).clients() == if old(connection)@.reading && event.ends_reading() {
                count_after_disconnect(old(self).clients())
            } else {
                old(self).clients()
            },
    {
        if !connection.reading {
            return false;
        }
        match event {
            InboundEvent::Text | InboundEvent::Other => true,
            InboundEvent::Close | InboundEvent::Failed | InboundEvent::Ended => {
                connection.reading = false;
                if self.client_count > 0 {
                    self.client_count = self.client_count - 1;
                }
                false
            },
        }
    }
}

/// What the writing side does with a serialized message: it sends the text,
/// and passes over a message that could not be written.
pub fn step_for(serialized: Result<String, serde_json::Error>) -> (r: WriteStep)
    ensures
        match serialized {
            Ok(text) => r == WriteStep::Send(text),
            Err(_) => r is Skip,
        },
{
    match serialized {
        Ok(text) => WriteStep::Send(text),
        Err(_) => WriteStep::Skip,
    }
}

impl Connection {
    pub fn is_reading(&self) -> (r: bool)
        ensures
            r == self@.reading,
    {
        self.reading
    }

    pub fn is_writing(&self) -> (r: bool)
        ensures
            r == self@.writing,
    {
        self.writing
    }

    /// A connection counts as closed as soon as one of its sides has
    /// stopped.
    pub fn is_closed(&self) -> (r: bool)
        ensures
            r == (!self@.reading || !self@.writing),
    {
        !self.reading || !self.writing
    }

    /// Decides what the writing side does with what its subscription handed
    /// over. A message is sent as one frame, in the form `to_message` gives
    /// it. A subscription that fell behind has lost its oldest messages and
    /// nothing else: there is nothing to send for the loss, and the writing
    /// goes on with the messages that are left. The writing stops when the
    /// channel is gone, and it stays stopped.
    pub fn on_outbound(&mut self, event: OutboundEvent) -> (r: WriteStep)
        ensures
            final(self)@.reading == old(self)@.reading,
            !old(self)@.writing ==> r is Stop && !final(self)@.writing,
            old(self)@.writing ==> match event {
                OutboundEvent::Message(message) => {
                    &&& final(self)@.writing
                    &&& r matches WriteStep::Send(text)
                    &&& text@ == message@.wire_text()
                },
                OutboundEvent::Lagged => r is Skip && final(self)@.writing,
                OutboundEvent::Closed => r is Stop && !final(self)@.writing,
            },
    {
        if !self.writing {
            return WriteStep::Stop;
        }
        match event {
            OutboundEvent::Message(message) => step_for(message.to_message()),
            OutboundEvent::Lagged => WriteStep::Skip,
            OutboundEvent::Closed => {
                self.writing = false;
                WriteStep::Stop
            },
        }
    }

    /// Tells the connection how sending a frame went: a failed send stops
    /// the writing side.
    pub fn on_sent(&mut self, sent: bool) -> (goes_on: bool)
        ensures
            goes_on == final(self)@.writing,
            final(self)@.reading == old(self)@.reading,
            final(self)@.writing == (old(self)@.writing && sent),
    {
        if !sent {
            self.writing = false;
        }
        self.writing
    }
}

/// A connection leaves the count exactly once, when its reading side ends:
/// whatever events come in on a fresh connection, the count falls by one if
/// one of them ends the reading, and stays if none does.
pub proof fn lemma_counted_once(count: nat, events: Seq<InboundEvent>)
    requires
        count < usize::MAX,
    ensures
        count_after_inbound(
            ConnectionView { reading: true, writing: true },
            count_after_connect(count),
            events,
        ) == if exists|i: int| 0 <= i < events.len() && (#[trigger] events[i]).ends_reading() {
            count
        } else {
            count + 1
        },
{
    lemma_count_after_inbound(ConnectionView { reading: true, writing: true }, count + 1, events);
}

proof fn lemma_count_after_inbound(connection: ConnectionView, count: nat, events: Seq<
    InboundEvent,
>)
    ensures
        count_after_inbound(connection, count, events) == if connection.reading && exists|i: int|
            0 <= i < events.len() && (#[trigger] events[i]).ends_reading() {
            count_after_disconnect(count)
        } else {
            count
        },
    decreases events.len(),
{
    if events.len() > 0 {
        let rest = events.drop_first();
        if connection.reading && events[0].ends_reading() {
            lemma_count_after_inbound(
                ConnectionView { reading: false, ..connection },
                count_after_disconnect(count),
                rest,
            );
        } else {
            lemma_count_after_inbound(connection, count, rest);
            if exists|i: int| 0 <= i < events.len() && (#[trigger] events[i]).ends_reading() {
                let i = choose|i: int|
                    0 <= i < events.len() && (#[trigger] events[i]).ends_reading();
                if connection.reading {
                    assert(rest[i - 1] == events[i]);
                }
            }
            if exists|i: int| 0 <= i < rest.len() && (#[trigger] rest[i]).ends_reading() {
                let i = choose|i: int| 0 <= i < rest.len() && (#[trigger] rest[i]).ends_reading();
            }
        }
    }
}

} // verus!
