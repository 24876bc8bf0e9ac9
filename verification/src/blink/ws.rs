//! Blink WebSocket subscription: a resilient, auto-reconnecting subscription to
//! payment updates.
//!
//! The subscription speaks the "graphql-transport-ws" protocol:
//! 1. `connection_init` with the API key,
//! 2. wait for `connection_ack`,
//! 3. `subscribe` with the query,
//! 4. data messages until `complete` or an error,
//! 5. ping and pong to keep the connection alive.
//!
//! [`WSClient::stream_my_updates`] makes the decisions: it says what to do next
//! after each event. Whoever runs the connection performs the action and reports
//! the event.

use vstd::prelude::*;

use crate::backoff::{delay_after, doubled, next_delay};
use crate::json::{parsed_json, Json, JsonView};
use crate::text::{int_text, replace, replace_all, same_text, signed_text};

verus! {

/// The subscription that delivers payment updates.
pub const SUBSCRIPTION_QUERY: &'static str = "subscription myUpdates { myUpdates { errors { message } me { id } update { __typename ... on LnUpdate { status transaction { id direction settlementAmount initiationVia { __typename ... on InitiationViaLn { paymentRequest paymentHash } } } } } } }";

/// The subprotocol that is asked for when connecting.
pub const SUBPROTOCOL: &'static str = "graphql-transport-ws";

/// How long one read may take while the acknowledgement is awaited, in
/// milliseconds.
pub const ACK_POLL: u64 = 500;

/// Timing of the connection, in milliseconds.
#[derive(Clone, Copy, Debug, PartialEq, Eq, Structural)]
pub struct WSConfig {
    /// How often to send ping messages.
    pub ping_interval: u64,
    /// How long to wait for `connection_ack`.
    pub ack_timeout: u64,
    /// The first delay before connecting again.
    pub initial_backoff: u64,
    /// The longest delay before connecting again.
    pub max_backoff: u64,
}

impl Default for WSConfig {
    fn default() -> (r: WSConfig)
        ensures
            r == default_ws_config(),
    {
        WSConfig {
            ping_interval: 30000,
            ack_timeout: 10000,
            initial_backoff: 1000,
            max_backoff: 30000,
        }
    }
}

/// The timing that is used unless another is given.
pub open spec fn default_ws_config() -> WSConfig {
    WSConfig {
        ping_interval: 30000,
        ack_timeout: 10000,
        initial_backoff: 1000,
        max_backoff: 30000,
    }
}

/// WebSocket client for Blink GraphQL subscriptions.
#[derive(Clone, Debug)]
pub struct WSClient {
    pub url: String,
    pub api_key: String,
    pub cfg: WSConfig,
}

/// What a [`WSClient`] holds.
pub struct WSClientView {
    pub url: Seq<char>,
    pub api_key: Seq<char>,
    pub cfg: WSConfig,
}

impl View for WSClient {
    type V = WSClientView;

    open spec fn view(&self) -> WSClientView {
        WSClientView { url: self.url@, api_key: self.api_key@, cfg: self.cfg }
    }
}

/// The WebSocket endpoint of an HTTP endpoint: the secure scheme for the secure
/// one, the plain for the plain one, and for Blink's own host the one that serves
/// subscriptions.
pub open spec fn websocket_url(http_url: Seq<char>) -> Seq<char> {
    replace_all(
        replace_all(replace_all(http_url, "https://"@, "wss://"@), "http://"@, "ws://"@),
        "api.blink.sv"@,
        "ws.blink.sv"@,
    )
}

// ---------------------------------------------------------------------------
// Messages
// ---------------------------------------------------------------------------

/// The message that authenticates the connection.
pub open spec fn init_view(api_key: Seq<char>) -> JsonView {
    JsonView::Object(
        seq![
            ("type"@, JsonView::Str("connection_init"@)),
            ("payload"@, JsonView::Object(seq![("X-API-KEY"@, JsonView::Str(api_key))])),
        ],
    )
}

/// The message that subscribes to payment updates.
pub open spec fn subscribe_view(id: Seq<char>) -> JsonView {
    JsonView::Object(
        seq![
            ("id"@, JsonView::Str(id)),
            ("type"@, JsonView::Str("subscribe"@)),
            ("payload"@, JsonView::Object(seq![("query"@, JsonView::Str(SUBSCRIPTION_QUERY@))])),
        ],
    )
}

/// The identifier of a subscription: made from the time in nanoseconds, or from
/// zero if the time cannot be expressed so.
pub open spec fn subscription_id_view(nanos: Option<i64>) -> Seq<char> {
    "sub-"@ + int_text(
        match nanos {
            Some(n) => n as int,
            None => 0,
        },
    )
}

/// The type of a message, if it names one.
pub open spec fn message_type(message: JsonView) -> Option<Seq<char>> {
    match message.field("type"@) {
        Some(t) => t.text(),
        None => None,
    }
}

/// What is done with a message of an established subscription.
#[derive(Clone, Copy, Debug, PartialEq, Eq, Structural)]
pub enum Verdict {
    /// It is an update: pass it on.
    Forward,
    /// It ends the subscription.
    Disconnect,
    /// It is of no interest.
    Ignore,
}

/// What is done with a message of an established subscription.
pub open spec fn verdict(message: JsonView) -> Verdict {
    let kind = message_type(message);
    if kind == Some("next"@) || kind == Some("data"@) {
        Verdict::Forward
    } else if kind == Some("complete"@) || kind == Some("error"@) || kind == Some(
        "connection_error"@,
    ) {
        Verdict::Disconnect
    } else {
        Verdict::Ignore
    }
}

/// Whether a message acknowledges the connection.
pub open spec fn acknowledges(message: JsonView) -> bool {
    message_type(message) == Some("connection_ack"@)
}

/// The message that authenticates the connection.
pub fn init_message(api_key: &str) -> (r: Json)
    ensures
        r@ == init_view(api_key@),
{
    let r = Json::object_of("type", Json::text("connection_init")).with(
        "payload",
        Json::object_of("X-API-KEY", Json::text(api_key)),
    );
    assert(r@->Object_0 =~= init_view(api_key@)->Object_0);
    r
}

/// The message that subscribes to payment updates.
pub fn subscribe_message(id: &str) -> (r: Json)
    ensures
        r@ == subscribe_view(id@),
{
    let r = Json::object_of("id", Json::text(id)).with("type", Json::text("subscribe")).with(
        "payload",
        Json::object_of("query", Json::text(SUBSCRIPTION_QUERY)),
    );
    assert(r@->Object_0 =~= subscribe_view(id@)->Object_0);
    r
}

/// The identifier of a subscription that is made at the given time.
pub fn subscription_id(nanos: Option<i64>) -> (r: String)
    ensures
        r@ == subscription_id_view(nanos),
{
    let n: i64 = match nanos {
        Some(n) => n,
        None => 0,
    };
    "sub-".to_string().concat(signed_text(n).as_str())
}

/// Whether the message has the given type.
fn has_type(message: &Json, kind: &str) -> (r: bool)
    ensures
        r == (message_type(message@) == Some(kind@)),
{
    match message.get("type") {
        Some(t) => match t.as_str() {
            Some(s) => same_text(s, kind),
            None => false,
        },
        None => false,
    }
}

/// Whether the message acknowledges the connection.
pub fn is_connection_ack(message: &Json) -> (r: bool)
    ensures
        r == acknowledges(message@),
{
    has_type(message, "connection_ack")
}

/// What is done with a message of an established subscription.
pub fn classify(message: &Json) -> (r: Verdict)
    ensures
        r == verdict(message@),
{
    if has_type(message, "next") || has_type(message, "data") {
        Verdict::Forward
    } else if has_type(message, "complete") || has_type(message, "error") || has_type(
        message,
        "connection_error",
    ) {
        Verdict::Disconnect
    } else {
        Verdict::Ignore
    }
}

// ---------------------------------------------------------------------------
// Session
// ---------------------------------------------------------------------------

/// What a read from the connection brought.
#[derive(Clone, Debug)]
pub enum Incoming {
    Text(String),
    Ping(Vec<u8>),
    Close,
    /// A frame of another kind.
    Other,
    /// The read failed.
    Failed,
    /// The connection has ended.
    Ended,
}

/// What has happened.
#[derive(Clone, Debug)]
pub enum WsEvent {
    /// Somebody still takes the updates.
    ReceiverOpen,
    /// Nobody takes the updates any more.
    ReceiverClosed,
    /// The connection stands.
    Connected,
    /// The request could not be built, or the connection not be made.
    ConnectFailed,
    /// The frame was sent.
    Sent,
    /// The frame could not be sent.
    SendFailed,
    /// This many milliseconds have passed since `connection_init` was sent.
    Elapsed(u64),
    /// A read brought this.
    Frame(Incoming),
    /// Nothing came within the time for one read.
    Silence,
    /// The time in nanoseconds, if it can be expressed so.
    Time(Option<i64>),
    /// A ping is due.
    PingDue,
    /// The update was handed on, or nobody took it.
    Forwarded,
    /// The connection was closed.
    Closed,
    /// The delay is over.
    Slept,
}

/// A frame to send.
#[derive(Debug)]
pub enum Outgoing {
    Text(Json),
    Ping,
    Pong(Vec<u8>),
}

/// What to do next.
#[derive(Debug)]
pub enum WsAction {
    /// Report whether somebody still takes the updates.
    CheckReceiver,
    /// Connect, asking for the subprotocol.
    Connect { url: String, subprotocol: String },
    /// Send a frame.
    Send(Outgoing),
    /// Report the time since `connection_init` was sent.
    ReadElapsed,
    /// Read a frame, for no longer than this many milliseconds.
    ReadFrame { timeout: u64 },
    /// Report the time.
    ReadTime,
    /// Wait for a frame or for the next ping to be due; start the pings anew if
    /// an interval is given.
    Listen { start_pings: Option<u64> },
    /// Hand the update on.
    Forward(Json),
    /// Close the connection.
    Close,
    /// Wait this many milliseconds.
    Sleep(u64),
    /// The subscription is over.
    Stop,
}

/// What a [`WsAction`] says.
pub enum WsActionView {
    CheckReceiver,
    Connect { url: Seq<char>, subprotocol: Seq<char> },
    SendText(JsonView),
    SendPing,
    SendPong(Seq<u8>),
    ReadElapsed,
    ReadFrame { timeout: u64 },
    ReadTime,
    Listen { start_pings: Option<u64> },
    Forward(JsonView),
    Close,
    Sleep(u64),
    Stop,
}

impl View for WsAction {
    type V = WsActionView;

    open spec fn view(&self) -> WsActionView {
        match self {
            WsAction::CheckReceiver => WsActionView::CheckReceiver,
            WsAction::Connect { url, subprotocol } => WsActionView::Connect {
                url: url@,
                subprotocol: subprotocol@,
            },
            WsAction::Send(Outgoing::Text(json)) => WsActionView::SendText(json@),
            WsAction::Send(Outgoing::Ping) => WsActionView::SendPing,
            WsAction::Send(Outgoing::Pong(payload)) => WsActionView::SendPong(payload@),
            WsAction::ReadElapsed => WsActionView::ReadElapsed,
            WsAction::ReadFrame { timeout } => WsActionView::ReadFrame { timeout: *timeout },
            WsAction::ReadTime => WsActionView::ReadTime,
            WsAction::Listen { start_pings } => WsActionView::Listen { start_pings: *start_pings },
            WsAction::Forward(json) => WsActionView::Forward(json@),
            WsAction::Close => WsActionView::Close,
            WsAction::Sleep(delay) => WsActionView::Sleep(*delay),
            WsAction::Stop => WsActionView::Stop,
        }
    }
}

/// Where a subscription stands.
#[derive(Clone, Copy, Debug, PartialEq, Eq, Structural)]
pub enum Phase {
    /// Before connecting: does somebody still take the updates?
    Checking,
    /// The connection is being made.
    Connecting,
    /// `connection_init` is being sent.
    Initialising,
    /// The acknowledgement is awaited: is there time left?
    AckClock,
    /// The acknowledgement is awaited: a frame is being read.
    AckFrame,
    /// The acknowledgement is awaited: a ping is being answered.
    AckPong,
    /// The connection is acknowledged; the subscription needs an identifier.
    Naming,
    /// `subscribe` is being sent.
    Subscribing,
    /// Subscribed: waiting for a frame or for the next ping to be due.
    Listening,
    /// Subscribed: a ping is being sent.
    Pinging,
    /// Subscribed: a ping is being answered.
    Ponging,
    /// Subscribed: an update is being handed on.
    Forwarding,
    /// Subscribed: does somebody still take the updates?
    Rechecking,
    /// The connection is being closed.
    Closing,
    /// Waiting before connecting again.
    Sleeping,
    /// The subscription is over.
    Stopped,
}

/// A subscription: where it stands, and how long to wait after the next failure,
/// in milliseconds.
#[derive(Clone, Copy, Debug, PartialEq, Eq, Structural)]
pub struct Session {
    pub phase: Phase,
    pub backoff: u64,
}

/// Whether an event can come in a phase.
pub open spec fn awaited(phase: Phase, event: WsEvent) -> bool {
    match phase {
        Phase::Checking | Phase::Rechecking => event is ReceiverOpen || event is ReceiverClosed,
        Phase::Connecting => event is Connected || event is ConnectFailed,
        Phase::Initialising | Phase::AckPong | Phase::Subscribing | Phase::Pinging
        | Phase::Ponging => event is Sent || event is SendFailed,
        Phase::AckClock => event is Elapsed,
        Phase::AckFrame => event is Frame || event is Silence,
        Phase::Naming => event is Time,
        Phase::Listening => event is Frame || event is PingDue,
        Phase::Forwarding => event is Forwarded,
        Phase::Closing => event is Closed,
        Phase::Sleeping => event is Slept,
        Phase::Stopped => false,
    }
}

impl Session {
    /// The same subscription in another phase.
    pub open spec fn at(self, phase: Phase) -> Session {
        Session { phase, backoff: self.backoff }
    }

    /// The subscription has lost its connection, or got none: it waits, and
    /// waits longer the next time.
    pub open spec fn wait_and_retry(self, cfg: WSConfig) -> (Session, WsActionView) {
        (
            Session { phase: Phase::Sleeping, backoff: doubled(self.backoff, cfg.max_backoff) },
            WsActionView::Sleep(self.backoff),
        )
    }

    /// The subscription gives its connection up.
    pub open spec fn give_up(self) -> (Session, WsActionView) {
        (self.at(Phase::Closing), WsActionView::Close)
    }

    /// What follows a frame that came while the acknowledgement was awaited.
    pub open spec fn after_ack_frame(self, frame: Incoming) -> (Session, WsActionView) {
        let acked = frame matches Incoming::Text(text) && (parsed_json(text@) matches Some(message)
            && acknowledges(message));
        match frame {
            Incoming::Text(_) => if acked {
                (self.at(Phase::Naming), WsActionView::ReadTime)
            } else {
                (self.at(Phase::AckClock), WsActionView::ReadElapsed)
            },
            Incoming::Ping(payload) => (self.at(Phase::AckPong), WsActionView::SendPong(payload@)),
            Incoming::Close | Incoming::Other => (
                self.at(Phase::AckClock),
                WsActionView::ReadElapsed,
            ),
            Incoming::Failed | Incoming::Ended => self.give_up(),
        }
    }

    /// What follows a frame of the subscription.
    pub open spec fn after_frame(self, cfg: WSConfig, frame: Incoming) -> (Session, WsActionView) {
        match frame {
            Incoming::Text(text) => match parsed_json(text@) {
                Some(message) => match verdict(message) {
                    Verdict::Forward => (
                        self.at(Phase::Forwarding),
                        WsActionView::Forward(message),
                    ),
                    Verdict::Disconnect => self.wait_and_retry(cfg),
                    Verdict::Ignore => (self.at(Phase::Rechecking), WsActionView::CheckReceiver),
                },
                None => (self.at(Phase::Rechecking), WsActionView::CheckReceiver),
            },
            Incoming::Ping(payload) => (self.at(Phase::Ponging), WsActionView::SendPong(payload@)),
            Incoming::Other => (self.at(Phase::Rechecking), WsActionView::CheckReceiver),
            Incoming::Close | Incoming::Failed | Incoming::Ended => self.wait_and_retry(cfg),
        }
    }

    /// What follows an event: the subscription afterwards, and what to do next.
    pub open spec fn next(self, client: WSClientView, event: WsEvent) -> (Session, WsActionView) {
        match self.phase {
            Phase::Checking => if event is ReceiverClosed {
                (self.at(Phase::Stopped), WsActionView::Stop)
            } else {
                (
                    self.at(Phase::Connecting),
                    WsActionView::Connect { url: client.url, subprotocol: SUBPROTOCOL@ },
                )
            },
            Phase::Connecting => if event is Connected {
                (
                    self.at(Phase::Initialising),
                    WsActionView::SendText(init_view(client.api_key)),
                )
            } else {
                self.wait_and_retry(client.cfg)
            },
            Phase::Initialising => if event is Sent {
                (self.at(Phase::AckClock), WsActionView::ReadElapsed)
            } else {
                self.give_up()
            },
            Phase::AckClock => if event->Elapsed_0 < client.cfg.ack_timeout {
                (self.at(Phase::AckFrame), WsActionView::ReadFrame { timeout: ACK_POLL })
            } else {
                self.give_up()
            },
            Phase::AckFrame => match event {
                WsEvent::Frame(frame) => self.after_ack_frame(frame),
                _ => (self.at(Phase::AckClock), WsActionView::ReadElapsed),
            },
            Phase::AckPong => (self.at(Phase::AckClock), WsActionView::ReadElapsed),
            Phase::Naming => (
                self.at(Phase::Subscribing),
                WsActionView::SendText(subscribe_view(subscription_id_view(event->Time_0))),
            ),
            Phase::Subscribing => if event is Sent {
                (
                    Session { phase: Phase::Listening, backoff: client.cfg.initial_backoff },
                    WsActionView::Listen { start_pings: Some(client.cfg.ping_interval) },
                )
            } else {
                self.give_up()
            },
            Phase::Listening => match event {
                WsEvent::Frame(frame) => self.after_frame(client.cfg, frame),
                _ => (self.at(Phase::Pinging), WsActionView::SendPing),
            },
            Phase::Pinging => if event is Sent {
                (self.at(Phase::Rechecking), WsActionView::CheckReceiver)
            } else {
                self.wait_and_retry(client.cfg)
            },
            Phase::Ponging | Phase::Forwarding => (
                self.at(Phase::Rechecking),
                WsActionView::CheckReceiver,
            ),
            Phase::Rechecking => if event is ReceiverOpen {
                (self.at(Phase::Listening), WsActionView::Listen { start_pings: None })
            } else {
                self.give_up()
            },
            Phase::Closing => self.wait_and_retry(client.cfg),
            Phase::Sleeping => (self.at(Phase::Checking), WsActionView::CheckReceiver),
            Phase::Stopped => (self, WsActionView::Stop),
        }
    }
}

impl WSClient {
    /// Creates a WebSocket client from the HTTP API URL.
    pub fn new(http_url: &str, api_key: &str) -> (r: WSClient)
        ensures
            r@ == (WSClientView {
                url: websocket_url(http_url@),
                api_key: api_key@,
                cfg: default_ws_config(),
            }),
    {
        proof {
            reveal_strlit("https://");
            reveal_strlit("http://");
            reveal_strlit("api.blink.sv");
        }
        let secure = replace(http_url, "https://", "wss://");
        let plain = replace(secure.as_str(), "http://", "ws://");
        let url = replace(plain.as_str(), "api.blink.sv", "ws.blink.sv");
        WSClient { url, api_key: api_key.to_string(), cfg: WSConfig::default() }
    }

    /// The subscription before anything has happened: it begins with
    /// [`WsAction::CheckReceiver`].
    pub fn session(&self) -> (r: Session)
        ensures
            r == (Session { phase: Phase::Checking, backoff: self.cfg.initial_backoff }),
    {
        Session { phase: Phase::Checking, backoff: self.cfg.initial_backoff }
    }

    /// Whether an event can come in a phase.
    pub fn is_awaited(phase: Phase, event: &WsEvent) -> (r: bool)
        ensures
            r == awaited(phase, *event),
    {
        match phase {
            Phase::Checking | Phase::Rechecking => match event {
                WsEvent::ReceiverOpen | WsEvent::ReceiverClosed => true,
                _ => false,
            },
            Phase::Connecting => match event {
                WsEvent::Connected | WsEvent::ConnectFailed => true,
                _ => false,
            },
            Phase::Initialising | Phase::AckPong | Phase::Subscribing | Phase::Pinging
            | Phase::Ponging => match event {
                WsEvent::Sent | WsEvent::SendFailed => true,
                _ => false,
            },
            Phase::AckClock => match event {
                WsEvent::Elapsed(_) => true,
                _ => false,
            },
            Phase::AckFrame => match event {
                WsEvent::Frame(_) | WsEvent::Silence => true,
                _ => false,
            },
            Phase::Naming => match event {
                WsEvent::Time(_) => true,
                _ => false,
            },
            Phase::Listening => match event {
                WsEvent::Frame(_) | WsEvent::PingDue => true,
                _ => false,
            },
            Phase::Forwarding => match event {
                WsEvent::Forwarded => true,
                _ => false,
            },
            Phase::Closing => match event {
                WsEvent::Closed => true,
                _ => false,
            },
            Phase::Sleeping => match event {
                WsEvent::Slept => true,
                _ => false,
            },
            Phase::Stopped => false,
        }
    }

    /// Waits before connecting again, longer the next time.
    fn wait_and_retry(&self, session: &mut Session) -> (r: WsAction)
        ensures
            (*final(session), r@) == old(session).wait_and_retry(self.cfg),
    {
        let delay: u64 = session.backoff;
        session.phase = Phase::Sleeping;
        session.backoff = next_delay(delay, self.cfg.max_backoff);
        WsAction::Sleep(delay)
    }

    /// Gives the connection up.
    fn give_up(session: &mut Session) -> (r: WsAction)
        ensures
            (*final(session), r@) == old(session).give_up(),
    {
        session.phase = Phase::Closing;
        WsAction::Close
    }

    /// What follows a frame that came while the acknowledgement was awaited.
    fn on_ack_frame(session: &mut Session, frame: Incoming) -> (r: WsAction)
        ensures
            (*final(session), r@) == old(session).after_ack_frame(frame),
    {
        match frame {
            Incoming::Text(text) => {
                let acked = match Json::parse(text.as_str()) {
                    Ok(message) => is_connection_ack(&message),
                    Err(_) => false,
                };
                if acked {
                    session.phase = Phase::Naming;
                    WsAction::ReadTime
                } else {
                    session.phase = Phase::AckClock;
                    WsAction::ReadElapsed
                }
            },
            Incoming::Ping(payload) => {
                session.phase = Phase::AckPong;
                WsAction::Send(Outgoing::Pong(payload))
            },
            Incoming::Close | Incoming::Other => {
                session.phase = Phase::AckClock;
                WsAction::ReadElapsed
            },
            Incoming::Failed | Incoming::Ended => WSClient::give_up(session),
        }
    }

    /// What follows a frame of the subscription.
    fn on_frame(&self, session: &mut Session, frame: Incoming) -> (r: WsAction)
        ensures
            (*final(session), r@) == old(session).after_frame(self.cfg, frame),
    {
        match frame {
            Incoming::Text(text) => match Json::parse(text.as_str()) {
                Ok(message) => match classify(&message) {
                    Verdict::Forward => {
                        session.phase = Phase::Forwarding;
                        WsAction::Forward(message)
                    },
                    Verdict::Disconnect => self.wait_and_retry(session),
                    Verdict::Ignore => {
                        session.phase = Phase::Rechecking;
                        WsAction::CheckReceiver
                    },
                },
                Err(_) => {
                    session.phase = Phase::Rechecking;
                    WsAction::CheckReceiver
                },
            },
            Incoming::Ping(payload) => {
                session.phase = Phase::Ponging;
                WsAction::Send(Outgoing::Pong(payload))
            },
            Incoming::Other => {
                session.phase = Phase::Rechecking;
                WsAction::CheckReceiver
            },
            Incoming::Close | Incoming::Failed | Incoming::Ended => self.wait_and_retry(session),
        }
    }

    /// Takes the subscription to payment updates one step further: after the
    /// event, says what to do next.
    pub fn stream_my_updates(&self, session: &mut Session, event: WsEvent) -> (r: WsAction)
        requires
            awaited(old(session).phase, event),
        ensures
            (*final(session), r@) == old(session).next(self@, event),
    {
        match session.phase {
            Phase::Checking => match event {
                WsEvent::ReceiverClosed => {
                    session.phase = Phase::Stopped;
                    WsAction::Stop
                },
                _ => {
                    session.phase = Phase::Connecting;
                    WsAction::Connect {
                        url: self.url.clone(),
                        subprotocol: SUBPROTOCOL.to_string(),
                    }
                },
            },
            Phase::Connecting => match event {
                WsEvent::Connected => {
                    session.phase = Phase::Initialising;
                    WsAction::Send(Outgoing::Text(init_message(self.api_key.as_str())))
                },
                _ => self.wait_and_retry(session),
            },
            Phase::Initialising => match event {
                WsEvent::Sent => {
                    session.phase = Phase::AckClock;
                    WsAction::ReadElapsed
                },
                _ => WSClient::give_up(session),
            },
            Phase::AckClock => {
                let in_time = match event {
                    WsEvent::Elapsed(elapsed) => elapsed < self.cfg.ack_timeout,
                    _ => false,
                };
                if in_time {
                    session.phase = Phase::AckFrame;
                    WsAction::ReadFrame { timeout: ACK_POLL }
                } else {
                    WSClient::give_up(session)
                }
            },
            Phase::AckFrame => match event {
                WsEvent::Frame(frame) => WSClient::on_ack_frame(session, frame),
                _ => {
                    session.phase = Phase::AckClock;
                    WsAction::ReadElapsed
                },
            },
            Phase::AckPong => {
                session.phase = Phase::AckClock;
                WsAction::ReadElapsed
            },
            Phase::Naming => {
                let nanos: Option<i64> = match event {
                    WsEvent::Time(nanos) => nanos,
                    _ => None,
                };
                session.phase = Phase::Subscribing;
                WsAction::Send(
                    Outgoing::Text(subscribe_message(subscription_id(nanos).as_str())),
                )
            },
            Phase::Subscribing => match event {
                WsEvent::Sent => {
                    session.phase = Phase::Listening;
                    session.backoff = self.cfg.initial_backoff;
                    WsAction::Listen { start_pings: Some(self.cfg.ping_interval) }
                },
                _ => WSClient::give_up(session),
            },
            Phase::Listening => match event {
                WsEvent::Frame(frame) => self.on_frame(session, frame),
                _ => {
                    session.phase = Phase::Pinging;
                    WsAction::Send(Outgoing::Ping)
                },
            },
            Phase::Pinging => match event {
                WsEvent::Sent => {
                    session.phase = Phase::Rechecking;
                    WsAction::CheckReceiver
                },
                _ => self.wait_and_retry(session),
            },
            Phase::Ponging | Phase::Forwarding => {
                session.phase = Phase::Rechecking;
                WsAction::CheckReceiver
            },
            Phase::Rechecking => match event {
                WsEvent::ReceiverOpen => {
                    session.phase = Phase::Listening;
                    WsAction::Listen { start_pings: None }
                },
                _ => WSClient::give_up(session),
            },
            Phase::Closing => self.wait_and_retry(session),
            Phase::Sleeping => {
                session.phase = Phase::Checking;
                WsAction::CheckReceiver
            },
            Phase::Stopped => WsAction::Stop,
        }
    }
}

// ---------------------------------------------------------------------------
// Laws
// ---------------------------------------------------------------------------

/// Where a subscription stands after events, one after the other.
pub open spec fn run(client: WSClientView, session: Session, events: Seq<WsEvent>) -> Session
    decreases events.len(),
{
    if events.len() == 0 {
        session
    } else {
        run(client, session, events.drop_last()).next(client, events.last()).0
    }
}

/// A subscription that nothing has happened to.
pub open spec fn fresh(client: WSClientView) -> Session {
    Session { phase: Phase::Checking, backoff: client.cfg.initial_backoff }
}

/// No delay ever exceeds the longest of the configured ones.
pub proof fn delays_stay_bounded(client: WSClientView, events: Seq<WsEvent>)
    ensures
        run(client, fresh(client), events).backoff <= if client.cfg.initial_backoff
            <= client.cfg.max_backoff {
            client.cfg.max_backoff
        } else {
            client.cfg.initial_backoff
        },
    decreases events.len(),
{
    if events.len() > 0 {
        delays_stay_bounded(client, events.drop_last());
    }
}

/// Every wait lasts as long as the backoff then stands, and doubles it up to the
/// cap for the next failure.
pub proof fn each_wait_doubles_the_next(client: WSClientView, session: Session, event: WsEvent)
    requires
        awaited(session.phase, event),
    ensures
        session.next(client, event).1 matches WsActionView::Sleep(delay) ==> {
            &&& delay == session.backoff
            &&& session.next(client, event).0.backoff == doubled(
                session.backoff,
                client.cfg.max_backoff,
            )
        },
{
}

/// The events of one failed attempt to connect.
pub open spec fn failed_attempt() -> Seq<WsEvent> {
    seq![WsEvent::ReceiverOpen, WsEvent::ConnectFailed, WsEvent::Slept]
}

/// The events of that many failed attempts to connect in a row.
pub open spec fn failed_attempts(n: nat) -> Seq<WsEvent>
    decreases n,
{
    if n == 0 {
        Seq::empty()
    } else {
        failed_attempts((n - 1) as nat) + failed_attempt()
    }
}

/// What happens after events and then three more.
proof fn run_three(client: WSClientView, session: Session, events: Seq<WsEvent>)
    ensures
        run(client, session, events + failed_attempt()) == run(client, session, events).next(
            client,
            WsEvent::ReceiverOpen,
        ).0.next(client, WsEvent::ConnectFailed).0.next(client, WsEvent::Slept).0,
{
    reveal_with_fuel(run, 4);
    let all = events + failed_attempt();
    let two = events.push(WsEvent::ReceiverOpen).push(WsEvent::ConnectFailed);
    let one = events.push(WsEvent::ReceiverOpen);
    assert(all.drop_last() =~= two);
    assert(two.drop_last() =~= one);
    assert(one.drop_last() =~= events);
    assert(all.last() == WsEvent::Slept);
    assert(two.last() == WsEvent::ConnectFailed);
    assert(one.last() == WsEvent::ReceiverOpen);
}

/// A subscription that cannot connect keeps trying, and the delays between the
/// attempts double up to the cap.
pub proof fn failing_to_connect_backs_off(client: WSClientView, n: nat)
    ensures
        run(client, fresh(client), failed_attempts(n)) == (Session {
            phase: Phase::Checking,
            backoff: delay_after(client.cfg.initial_backoff, client.cfg.max_backoff, n),
        }),
    decreases n,
{
    if n > 0 {
        failing_to_connect_backs_off(client, (n - 1) as nat);
        run_three(client, fresh(client), failed_attempts((n - 1) as nat));
    }
}

/// Once subscribed, the backoff is the initial one again.
pub proof fn subscribing_resets_the_backoff(client: WSClientView, session: Session)
    requires
        session.phase == Phase::Subscribing,
    ensures
        session.next(client, WsEvent::Sent) == (
            fresh(client).at(Phase::Listening),
            WsActionView::Listen { start_pings: Some(client.cfg.ping_interval) },
        ),
{
}

/// The subscription is over if and only if nobody takes the updates any more
/// when it is about to connect.
pub proof fn stops_only_without_receiver(client: WSClientView, session: Session, event: WsEvent)
    requires
        awaited(session.phase, event),
    ensures
        session.next(client, event).1 is Stop <==> session.phase == Phase::Checking
            && event is ReceiverClosed,
        session.next(client, event).1 is Stop <==> session.next(client, event).0.phase
            == Phase::Stopped,
{
}

/// As long as somebody takes the updates, the subscription goes on.
pub proof fn goes_on_while_received(client: WSClientView, events: Seq<WsEvent>)
    requires
        forall|i: int| 0 <= i < events.len() ==> !(#[trigger] events[i] is ReceiverClosed),
    ensures
        run(client, fresh(client), events).phase != Phase::Stopped,
    decreases events.len(),
{
    if events.len() > 0 {
        let before = events.drop_last();
        assert forall|i: int| 0 <= i < before.len() implies !(#[trigger] before[i] is ReceiverClosed) by {
            assert(before[i] == events[i]);
        }
        goes_on_while_received(client, before);
        assert(!(events[events.len() - 1] is ReceiverClosed));
    }
}

/// Whatever ends a connection, the subscription waits and then begins anew: a
/// given up connection is closed, and a closed one waited for.
pub proof fn reconnects_after_every_failure(client: WSClientView, session: Session)
    ensures
        session.at(Phase::Closing).next(client, WsEvent::Closed).0.phase == Phase::Sleeping,
        session.at(Phase::Sleeping).next(client, WsEvent::Slept) == (
            session.at(Phase::Checking),
            WsActionView::CheckReceiver,
        ),
        session.at(Phase::Checking).next(client, WsEvent::ReceiverOpen) == (
            session.at(Phase::Connecting),
            WsActionView::Connect { url: client.url, subprotocol: SUBPROTOCOL@ },
        ),
{
}

/// The text that an event brings is an update: it is JSON of type "next" or
/// "data".
pub open spec fn is_update(text: Seq<char>) -> bool {
    parsed_json(text) matches Some(message) && (message_type(message) == Some("next"@)
        || message_type(message) == Some("data"@))
}

/// Updates, and nothing else, are handed on, each as it came.
pub proof fn updates_alone_are_forwarded(client: WSClientView, session: Session, event: WsEvent)
    requires
        awaited(session.phase, event),
    ensures
        session.next(client, event).1 matches WsActionView::Forward(message) ==> {
            &&& session.phase == Phase::Listening
            &&& event matches WsEvent::Frame(Incoming::Text(text)) && is_update(text@)
                && parsed_json(text@) == Some(message)
        },
        session.phase == Phase::Listening && (event matches WsEvent::Frame(Incoming::Text(text))
            && is_update(text@)) ==> session.next(client, event).1 is Forward,
{
    reveal_strlit("next");
    reveal_strlit("data");
    reveal_strlit("complete");
    reveal_strlit("error");
    reveal_strlit("connection_error");
}

/// The text that an event brings ends the subscription: it is JSON of type
/// "complete", "error" or "connection_error".
pub open spec fn is_end(text: Seq<char>) -> bool {
    parsed_json(text) matches Some(message) && (message_type(message) == Some("complete"@)
        || message_type(message) == Some("error"@) || message_type(message) == Some(
        "connection_error"@,
    ))
}

/// Messages come until the server completes the subscription or reports an error:
/// then nothing more is read from the connection, and a new one is made after the
/// delay.
pub proof fn messages_end_with_complete_or_error(
    client: WSClientView,
    session: Session,
    text: String,
)
    requires
        session.phase == Phase::Listening,
    ensures
        is_end(text@) <==> session.next(client, WsEvent::Frame(Incoming::Text(text)))
            == session.wait_and_retry(client.cfg),
{
    reveal_strlit("next");
    reveal_strlit("data");
    reveal_strlit("complete");
    reveal_strlit("error");
    reveal_strlit("connection_error");
    assert("next"@.len() == 4 && "data"@.len() == 4);
    assert("complete"@.len() == 8 && "error"@.len() == 5 && "connection_error"@.len() == 16);
}

/// A ping is answered with a pong of the same payload, before and after the
/// acknowledgement.
pub proof fn pings_are_answered(client: WSClientView, session: Session, payload: Vec<u8>)
    requires
        session.phase == Phase::AckFrame || session.phase == Phase::Listening,
    ensures
        session.next(client, WsEvent::Frame(Incoming::Ping(payload))).1 == WsActionView::SendPong(
            payload@,
        ),
{
}

/// Pings are sent when they are due, and at no other time.
pub proof fn pings_are_sent_when_due(client: WSClientView, session: Session, event: WsEvent)
    requires
        awaited(session.phase, event),
    ensures
        session.next(client, event).1 is SendPing <==> event is PingDue,
{
}

/// Whether a phase comes only after the acknowledgement.
pub open spec fn acknowledged(phase: Phase) -> bool {
    match phase {
        Phase::Naming | Phase::Subscribing | Phase::Listening | Phase::Pinging | Phase::Ponging
        | Phase::Forwarding | Phase::Rechecking => true,
        _ => false,
    }
}

/// The handshake keeps its order: the API key goes out as soon as the connection
/// stands, nothing is subscribed to before the server has acknowledged it, and
/// only the acknowledgement leads on.
pub proof fn handshake_in_order(client: WSClientView, session: Session, event: WsEvent)
    requires
        awaited(session.phase, event),
    ensures
        event is Connected ==> session.next(client, event) == (
            session.at(Phase::Initialising),
            WsActionView::SendText(init_view(client.api_key)),
        ),
        session.next(client, event).1 matches WsActionView::SendText(message) ==> (event
            is Connected && message == init_view(client.api_key)) || (session.phase
            == Phase::Naming && event is Time && message == subscribe_view(
            subscription_id_view(event->Time_0),
        )),
        !acknowledged(session.phase) && acknowledged(session.next(client, event).0.phase)
            ==> session.phase == Phase::AckFrame && session.next(client, event).0.phase
            == Phase::Naming && (event matches WsEvent::Frame(Incoming::Text(text)) && (
        parsed_json(text@) matches Some(message) && acknowledges(message))),
{
}

/// Whether each of the events came in a phase in which it could come.
pub open spec fn possible(client: WSClientView, events: Seq<WsEvent>) -> bool
    decreases events.len(),
{
    events.len() == 0 || (possible(client, events.drop_last()) && awaited(
        run(client, fresh(client), events.drop_last()).phase,
        events.last(),
    ))
}

/// Whether an event is the acknowledgement of the server.
pub open spec fn is_ack(event: WsEvent) -> bool {
    event matches WsEvent::Frame(Incoming::Text(text)) && (parsed_json(text@) matches Some(message)
        && acknowledges(message))
}

/// Whether the acknowledgement of the present connection is the event at an
/// index.
pub open spec fn acked_at(events: Seq<WsEvent>, i: int) -> bool {
    &&& 0 <= i < events.len()
    &&& is_ack(events[i])
    &&& forall|j: int| i < j < events.len() ==> !(#[trigger] events[j] is Connected)
}

/// A subscription subscribes and listens only on a connection that the server has
/// acknowledged.
pub proof fn subscribed_means_acknowledged(client: WSClientView, events: Seq<WsEvent>)
    requires
        possible(client, events),
        acknowledged(run(client, fresh(client), events).phase),
    ensures
        exists|i: int| acked_at(events, i),
    decreases events.len(),
{
    let earlier = events.drop_last();
    let before = run(client, fresh(client), earlier);
    let last = events.last();
    handshake_in_order(client, before, last);
    if acknowledged(before.phase) {
        subscribed_means_acknowledged(client, earlier);
        let i = choose|i: int| acked_at(earlier, i);
        assert forall|j: int| i < j < events.len() implies !(#[trigger] events[j] is Connected) by {
            if j < earlier.len() {
                assert(events[j] == earlier[j]);
            }
        }
        assert(events[i] == earlier[i]);
        assert(acked_at(events, i));
    } else {
        assert(acked_at(events, events.len() - 1));
    }
}

/// The acknowledgement is awaited only while there is time left.
pub proof fn acknowledgement_times_out(client: WSClientView, session: Session, elapsed: u64)
    requires
        session.phase == Phase::AckClock,
    ensures
        session.next(client, WsEvent::Elapsed(elapsed)).1 is ReadFrame <==> elapsed
            < client.cfg.ack_timeout,
        session.next(client, WsEvent::Elapsed(elapsed)).1 is Close <==> elapsed
            >= client.cfg.ack_timeout,
{
}

/// Whether an action is the one that a phase is about.
pub open spec fn belongs_to(action: WsActionView, phase: Phase) -> bool {
    match phase {
        Phase::Checking | Phase::Rechecking => action is CheckReceiver,
        Phase::Connecting => action is Connect,
        Phase::Initialising | Phase::Subscribing => action is SendText,
        Phase::AckClock => action is ReadElapsed,
        Phase::AckFrame => action is ReadFrame,
        Phase::AckPong | Phase::Ponging => action is SendPong,
        Phase::Naming => action is ReadTime,
        Phase::Listening => action is Listen,
        Phase::Pinging => action is SendPing,
        Phase::Forwarding => action is Forward,
        Phase::Closing => action is Close,
        Phase::Sleeping => action is Sleep,
        Phase::Stopped => action is Stop,
    }
}

/// The action that follows an event is the one that the new phase is about, so
/// that its outcome is an event which that phase awaits.
pub proof fn action_fits_phase(client: WSClientView, session: Session, event: WsEvent)
    requires
        awaited(session.phase, event),
    ensures
        belongs_to(session.next(client, event).1, session.next(client, event).0.phase),
{
}

} // verus!
