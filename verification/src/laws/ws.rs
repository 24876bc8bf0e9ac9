//! What holds of the subscription over WebSocket.

use vstd::prelude::*;

use crate::blink::ws::{
    awaited, classify, fresh, init_message, init_view, is_connection_ack, subscribe_message,
    subscribe_view, subscription_id, subscription_id_view, Incoming, Outgoing, Phase, Session,
    Verdict, WSClient, WSClientView, WsAction, WsActionView, WsEvent,
};
use crate::json::{parsed_json, Json, JsonView};
use crate::laws::json::first_entry_is_found;
use crate::laws::text::{
    different_integers_differ, nothing_to_replace, replacing_at_the_beginning,
    replacing_keeps_what_precedes,
};
use crate::text::{contains_text, int_text, replace_all};

verus! {

// ---------------------------------------------------------------------------
// The client
// ---------------------------------------------------------------------------

/// Whether a text holds neither of the two schemes nor Blink's host.
pub open spec fn is_plain(s: Seq<char>) -> bool {
    !contains_text(s, "https://"@) && !contains_text(s, "http://"@) && !contains_text(
        s,
        "api.blink.sv"@,
    )
}

/// A text is plain behind a beginning in which no scheme and no host can begin.
proof fn replaced_behind(before: Seq<char>, rest: Seq<char>, from: Seq<char>, to: Seq<char>)
    requires
        from.len() > 0,
        forall|i: int| 0 <= i < before.len() ==> #[trigger] before[i] != from[0],
        !contains_text(rest, from),
    ensures
        replace_all(before + rest, from, to) == before + rest,
{
    replacing_keeps_what_precedes(before, rest, from, to);
    nothing_to_replace(rest, from, to);
}

/// The secure scheme becomes the secure one for WebSocket, the plain one the plain,
/// and nothing else changes.
pub proof fn schemes_are_converted(
    rest: Seq<char>,
    secure_url: &str,
    plain_url: &str,
    api_key: &str,
    secure: WSClient,
    plain: WSClient,
)
    requires
        is_plain(rest),
        secure_url@ == "https://"@ + rest,
        plain_url@ == "http://"@ + rest,
        call_ensures(WSClient::new, (secure_url, api_key), secure),
        call_ensures(WSClient::new, (plain_url, api_key), plain),
    ensures
        secure.url@ == "wss://"@ + rest,
        plain.url@ == "ws://"@ + rest,
{
    reveal_strlit("https://");
    reveal_strlit("http://");
    reveal_strlit("wss://");
    reveal_strlit("ws://");
    reveal_strlit("api.blink.sv");
    // The secure scheme.
    replacing_at_the_beginning(rest, "https://"@, "wss://"@);
    nothing_to_replace(rest, "https://"@, "wss://"@);
    replaced_behind("wss://"@, rest, "http://"@, "ws://"@);
    replaced_behind("wss://"@, rest, "api.blink.sv"@, "ws.blink.sv"@);
    // The plain scheme.
    plain_scheme_is_no_secure_one(rest);
    replacing_at_the_beginning(rest, "http://"@, "ws://"@);
    nothing_to_replace(rest, "http://"@, "ws://"@);
    replaced_behind("ws://"@, rest, "api.blink.sv"@, "ws.blink.sv"@);
}

/// In a text that begins with the plain scheme the secure one is not replaced.
proof fn plain_scheme_is_no_secure_one(rest: Seq<char>)
    requires
        !contains_text(rest, "https://"@),
    ensures
        replace_all("http://"@ + rest, "https://"@, "wss://"@) == "http://"@ + rest,
{
    reveal_strlit("https://");
    reveal_strlit("http://");
    let u = "http://"@ + rest;
    let from = "https://"@;
    let to = "wss://"@;
    assert(u[0] == 'h' && u[4] == ':');
    if u.len() < from.len() {
        assert(replace_all(u, from, to) == u);
    } else {
        assert(u.take(8)[4] == ':');
        assert(from[4] == 's');
        assert(u.take(from.len() as int) != from);
        let before = "http://"@.skip(1);
        assert(u.skip(1) =~= before + rest);
        replaced_behind(before, rest, from, to);
        assert(seq![u[0]] + u.skip(1) =~= u);
    }
}

/// Blink's own host becomes the one that serves subscriptions.
pub proof fn host_is_converted(rest: Seq<char>, url: &str, api_key: &str, r: WSClient)
    requires
        is_plain(rest),
        url@ == "https://api.blink.sv"@ + rest,
        call_ensures(WSClient::new, (url, api_key), r),
    ensures
        r.url@ == "wss://ws.blink.sv"@ + rest,
{
    reveal_strlit("https://");
    reveal_strlit("https://api.blink.sv");
    reveal_strlit("http://");
    reveal_strlit("wss://");
    reveal_strlit("wss://ws.blink.sv");
    reveal_strlit("ws.blink.sv");
    reveal_strlit("api.blink.sv");
    let tail = "api.blink.sv"@ + rest;
    assert(url@ =~= "https://"@ + tail);
    replacing_at_the_beginning(tail, "https://"@, "wss://"@);
    replaced_behind("api.blink.sv"@, rest, "https://"@, "wss://"@);
    let one = "wss://"@ + tail;
    let head = "wss://"@ + "api.blink.sv"@;
    assert(one =~= head + rest);
    assert forall|i: int| 0 <= i < head.len() implies #[trigger] head[i] != "http://"@[0] by {
        if i < 6 {
            assert(head[i] == "wss://"@[i]);
        } else {
            assert(head[i] == "api.blink.sv"@[i - 6]);
        }
    }
    replaced_behind(head, rest, "http://"@, "ws://"@);
    replacing_keeps_what_precedes("wss://"@, tail, "api.blink.sv"@, "ws.blink.sv"@);
    replacing_at_the_beginning(rest, "api.blink.sv"@, "ws.blink.sv"@);
    nothing_to_replace(rest, "api.blink.sv"@, "ws.blink.sv"@);
    assert("wss://"@ + ("ws.blink.sv"@ + rest) =~= "wss://ws.blink.sv"@ + rest);
}

/// A client has the key that it is given, pings every half minute, waits ten seconds
/// for the acknowledgement, and waits between one and thirty seconds before it
/// connects again.
pub proof fn clients_have_their_key_and_timing(
    url: &str,
    api_key: &str,
    r: WSClient,
    session: Session,
)
    requires
        call_ensures(WSClient::new, (url, api_key), r),
        call_ensures(WSClient::session, (&r,), session),
    ensures
        r.api_key@ == api_key@,
        r.cfg.ping_interval == 30 * 1000,
        r.cfg.ack_timeout == 10 * 1000,
        r.cfg.initial_backoff == 1000,
        r.cfg.max_backoff == 30 * 1000,
        session.phase == Phase::Checking,
        session.backoff == 1000,
{
}

// ---------------------------------------------------------------------------
// Messages
// ---------------------------------------------------------------------------

/// The first message gives the API key.
pub proof fn init_gives_the_key(api_key: &str, r: Json)
    requires
        call_ensures(init_message, (api_key,), r),
    ensures
        r@->Object_0.len() == 2,
        r@.field("type"@) == Some(JsonView::Str("connection_init"@)),
        r@.field("payload"@) matches Some(payload) && payload->Object_0.len() == 1
            && payload.field("X-API-KEY"@) == Some(JsonView::Str(api_key@)),
{
    reveal_strlit("type");
    reveal_strlit("payload");
    assert("type"@.len() != "payload"@.len());
    let entries = r@->Object_0;
    first_entry_is_found(entries, 0, "type"@);
    first_entry_is_found(entries, 1, "payload"@);
    first_entry_is_found(entries[1].1->Object_0, 0, "X-API-KEY"@);
}

/// The subscription is asked for under its identifier, and for the status, the
/// amount and the payment hash of updates.
pub proof fn subscription_asks_for_updates(id: &str, r: Json)
    requires
        call_ensures(subscribe_message, (id,), r),
    ensures
        r@->Object_0.len() == 3,
        r@.field("id"@) == Some(JsonView::Str(id@)),
        r@.field("type"@) == Some(JsonView::Str("subscribe"@)),
        r@.field("payload"@) matches Some(payload) && payload->Object_0.len() == 1
            && payload.field("query"@) == Some(
            JsonView::Str(
                "subscription myUpdates { myUpdates { errors { message } me { id } update { __typename ... on LnUpdate { status transaction { id direction settlementAmount initiationVia { __typename ... on InitiationViaLn { paymentRequest paymentHash } } } } } } }"@,
            ),
        ),
{
    reveal_strlit("id");
    reveal_strlit("type");
    reveal_strlit("payload");
    assert("id"@.len() == 2 && "type"@.len() == 4 && "payload"@.len() == 7);
    let entries = r@->Object_0;
    first_entry_is_found(entries, 0, "id"@);
    first_entry_is_found(entries, 1, "type"@);
    first_entry_is_found(entries, 2, "payload"@);
    first_entry_is_found(entries[2].1->Object_0, 0, "query"@);
}

/// Identifiers of subscriptions begin alike, and differ if they are made at
/// different times.
pub proof fn identifiers_tell_times_apart(a: i64, b: i64, r: String, s: String, none: String)
    requires
        call_ensures(subscription_id, (Some(a),), r),
        call_ensures(subscription_id, (Some(b),), s),
        call_ensures(subscription_id, (None::<i64>,), none),
    ensures
        r@ == s@ ==> a == b,
        r@.len() > 4 && r@.take(4) == "sub-"@,
        a == 0 ==> r@ == none@,
{
    reveal_strlit("sub-");
    assert(r@.skip(4) =~= int_text(a as int));
    assert(s@.skip(4) =~= int_text(b as int));
    if r@ == s@ {
        different_integers_differ(a as int, b as int);
    }
    crate::laws::text::decimal_reads_back(
        if a < 0 {
            (-a) as nat
        } else {
            a as nat
        },
    );
    assert(r@.take(4) =~= "sub-"@);
}

/// A message is forwarded if its type is "next" or "data", ends the connection if it
/// is "complete", "error" or "connection_error", and is ignored otherwise.
pub proof fn messages_are_told_apart(message: Json, r: Verdict, ack: bool)
    requires
        call_ensures(classify, (&message,), r),
        call_ensures(is_connection_ack, (&message,), ack),
    ensures
        ({
            let kind = message@.field("type"@);
            &&& r == Verdict::Forward <==> kind == Some(JsonView::Str("next"@)) || kind == Some(
                JsonView::Str("data"@),
            )
            &&& r == Verdict::Disconnect <==> kind == Some(JsonView::Str("complete"@)) || kind
                == Some(JsonView::Str("error"@)) || kind == Some(JsonView::Str("connection_error"@))
            &&& ack <==> kind == Some(JsonView::Str("connection_ack"@))
        }),
{
    reveal_strlit("next");
    reveal_strlit("data");
    reveal_strlit("complete");
    reveal_strlit("error");
    reveal_strlit("connection_error");
    assert("next"@.len() == 4 && "data"@.len() == 4);
    assert("complete"@.len() == 8 && "error"@.len() == 5 && "connection_error"@.len() == 16);
}

// ---------------------------------------------------------------------------
// The session
// ---------------------------------------------------------------------------

/// What the text of a message says its type is.
pub open spec fn type_of(text: Seq<char>) -> Option<JsonView> {
    match parsed_json(text) {
        Some(message) => message.field("type"@),
        None => None,
    }
}

/// Whether a frame ends an established connection.
pub open spec fn ends_connection(frame: Incoming) -> bool {
    match frame {
        Incoming::Close | Incoming::Failed | Incoming::Ended => true,
        Incoming::Text(text) => type_of(text@) == Some(JsonView::Str("complete"@)) || type_of(text@)
            == Some(JsonView::Str("error"@)) || type_of(text@) == Some(
            JsonView::Str("connection_error"@),
        ),
        Incoming::Ping(_) | Incoming::Other => false,
    }
}

/// Whether a frame is an update.
pub open spec fn is_update_frame(frame: Incoming) -> bool {
    frame matches Incoming::Text(text) && (type_of(text@) == Some(JsonView::Str("next"@))
        || type_of(text@) == Some(JsonView::Str("data"@)))
}

/// Whether a frame is the acknowledgement of the server.
pub open spec fn is_ack_frame(frame: Incoming) -> bool {
    frame matches Incoming::Text(text) && type_of(text@) == Some(JsonView::Str("connection_ack"@))
}

/// The literals that tell messages apart are different.
proof fn types_differ()
    ensures
        "next"@ != "complete"@ && "next"@ != "error"@ && "next"@ != "connection_error"@,
        "data"@ != "complete"@ && "data"@ != "error"@ && "data"@ != "connection_error"@,
{
    reveal_strlit("next");
    reveal_strlit("data");
    reveal_strlit("complete");
    reveal_strlit("error");
    reveal_strlit("connection_error");
    assert("next"@.len() == 4 && "data"@.len() == 4);
    assert("complete"@.len() == 8 && "error"@.len() == 5 && "connection_error"@.len() == 16);
}

/// A connection is left without being closed only when it could not be made, when a
/// frame ends it, or when a ping could not be sent; what was closed is left too.
pub proof fn left_only_for_a_cause(client: WSClientView, session: Session, event: WsEvent)
    requires
        awaited(session.phase, event),
    ensures
        session.next(client, event).1 is Sleep <==> {
            ||| session.phase == Phase::Connecting && event is ConnectFailed
            ||| session.phase == Phase::Listening && (event matches WsEvent::Frame(frame)
                && ends_connection(frame))
            ||| session.phase == Phase::Pinging && event is SendFailed
            ||| session.phase == Phase::Closing
        },
{
    types_differ();
}

/// A connection is closed only when a message of the handshake could not be sent,
/// when it was lost or no acknowledgement came in time, or when nobody takes the
/// updates any more.
pub proof fn closed_only_for_a_cause(client: WSClientView, session: Session, event: WsEvent)
    requires
        awaited(session.phase, event),
    ensures
        session.next(client, event).1 is Close <==> {
            ||| session.phase == Phase::Initialising && event is SendFailed
            ||| session.phase == Phase::Subscribing && event is SendFailed
            ||| session.phase == Phase::AckClock && (event matches WsEvent::Elapsed(elapsed)
                && elapsed >= client.cfg.ack_timeout)
            ||| session.phase == Phase::AckFrame && (event matches WsEvent::Frame(frame) && (
            frame is Failed || frame is Ended))
            ||| session.phase == Phase::Rechecking && event is ReceiverClosed
        },
{
    types_differ();
}

/// A keep-alive leaves a healthy connection as it is: after a ping that was sent, and
/// with a receiver that is open, the session listens on, with the same backoff and
/// without starting the pings anew.
pub proof fn keep_alive_keeps_the_connection(client: WSClientView, session: Session)
    requires
        session.phase == Phase::Listening,
    ensures
        ({
            let pinging = session.next(client, WsEvent::PingDue);
            let sent = pinging.0.next(client, WsEvent::Sent);
            let listening = sent.0.next(client, WsEvent::ReceiverOpen);
            &&& pinging.1 == WsActionView::SendPing
            &&& sent.1 == WsActionView::CheckReceiver
            &&& listening.1 == (WsActionView::Listen { start_pings: None })
            &&& listening.0 == session
        }),
{
}

/// A ping of the server is answered with its payload, and whether or not the answer
/// goes out the session listens on.
pub proof fn answering_keeps_the_connection(
    client: WSClientView,
    session: Session,
    payload: Vec<u8>,
    answered: WsEvent,
)
    requires
        session.phase == Phase::Listening,
        answered is Sent || answered is SendFailed,
    ensures
        ({
            let ponging = session.next(client, WsEvent::Frame(Incoming::Ping(payload)));
            let sent = ponging.0.next(client, answered);
            let listening = sent.0.next(client, WsEvent::ReceiverOpen);
            &&& ponging.1 == WsActionView::SendPong(payload@)
            &&& sent.1 == WsActionView::CheckReceiver
            &&& listening.1 == (WsActionView::Listen { start_pings: None })
            &&& listening.0 == session
        }),
{
}

/// An update is handed on as it came, once, and the session listens on.
pub proof fn updates_are_handed_on(client: WSClientView, session: Session, text: String)
    requires
        session.phase == Phase::Listening,
        is_update_frame(Incoming::Text(text)),
    ensures
        ({
            let forwarding = session.next(client, WsEvent::Frame(Incoming::Text(text)));
            let forwarded = forwarding.0.next(client, WsEvent::Forwarded);
            let listening = forwarded.0.next(client, WsEvent::ReceiverOpen);
            &&& forwarding.1 matches WsActionView::Forward(message) && parsed_json(text@) == Some(
                message,
            )
            &&& forwarded.1 == WsActionView::CheckReceiver
            &&& listening.1 == (WsActionView::Listen { start_pings: None })
            &&& listening.0 == session
        }),
{
    types_differ();
}

/// Any other frame that does not end the connection is passed over, and the session
/// listens on.
pub proof fn other_frames_are_passed_over(client: WSClientView, session: Session, frame: Incoming)
    requires
        session.phase == Phase::Listening,
        !ends_connection(frame),
        !is_update_frame(frame),
        !(frame is Ping),
    ensures
        ({
            let checking = session.next(client, WsEvent::Frame(frame));
            let listening = checking.0.next(client, WsEvent::ReceiverOpen);
            &&& checking.1 == WsActionView::CheckReceiver
            &&& listening.1 == (WsActionView::Listen { start_pings: None })
            &&& listening.0 == session
        }),
{
    types_differ();
}

/// Nothing but an update is handed on.
pub proof fn nothing_else_is_handed_on(client: WSClientView, session: Session, event: WsEvent)
    requires
        awaited(session.phase, event),
    ensures
        session.next(client, event).1 is Forward <==> session.phase == Phase::Listening && (
        event matches WsEvent::Frame(frame) && is_update_frame(frame)),
{
    types_differ();
}

/// From the first check to the subscription: the session connects at the client's
/// endpoint with the subprotocol, gives the key, waits for the acknowledgement, and
/// subscribes under an identifier of the time; then it listens, with the pings
/// started and the backoff that it began with.
pub proof fn handshake_leads_to_the_subscription(
    client: WSClientView,
    session: Session,
    elapsed: u64,
    ack: Incoming,
    nanos: Option<i64>,
)
    requires
        session.phase == Phase::Checking,
        elapsed < client.cfg.ack_timeout,
        is_ack_frame(ack),
    ensures
        ({
            let a = session.next(client, WsEvent::ReceiverOpen);
            let b = a.0.next(client, WsEvent::Connected);
            let c = b.0.next(client, WsEvent::Sent);
            let d = c.0.next(client, WsEvent::Elapsed(elapsed));
            let e = d.0.next(client, WsEvent::Frame(ack));
            let f = e.0.next(client, WsEvent::Time(nanos));
            let g = f.0.next(client, WsEvent::Sent);
            &&& a.1 == (WsActionView::Connect {
                url: client.url,
                subprotocol: "graphql-transport-ws"@,
            })
            &&& b.1 == WsActionView::SendText(init_view(client.api_key))
            &&& c.1 == WsActionView::ReadElapsed
            &&& d.1 == (WsActionView::ReadFrame { timeout: 500 })
            &&& e.1 == WsActionView::ReadTime
            &&& f.1 == WsActionView::SendText(subscribe_view(subscription_id_view(nanos)))
            &&& g.1 == (WsActionView::Listen { start_pings: Some(client.cfg.ping_interval) })
            &&& g.0 == (Session {
                phase: Phase::Listening,
                backoff: client.cfg.initial_backoff,
            })
        }),
{
}

/// While the acknowledgement is awaited, whatever else comes, or nothing, leads back
/// to the question for the time that is left; pings are answered.
pub proof fn acknowledgement_is_awaited(
    client: WSClientView,
    session: Session,
    event: WsEvent,
    answered: WsEvent,
)
    requires
        session.phase == Phase::AckFrame,
        awaited(session.phase, event),
        event matches WsEvent::Frame(frame) ==> !is_ack_frame(frame) && !(frame is Failed) && !(
        frame is Ended),
        answered is Sent || answered is SendFailed,
    ensures
        ({
            let next = session.next(client, event);
            match event {
                WsEvent::Frame(Incoming::Ping(payload)) => {
                    let after = next.0.next(client, answered);
                    &&& next.1 == WsActionView::SendPong(payload@)
                    &&& after.1 == WsActionView::ReadElapsed
                    &&& after.0 == (Session { phase: Phase::AckClock, backoff: session.backoff })
                },
                _ => {
                    &&& next.1 == WsActionView::ReadElapsed
                    &&& next.0 == (Session { phase: Phase::AckClock, backoff: session.backoff })
                },
            }
        }),
{
}

/// A session that has left its connection waits as long as its backoff says, and
/// connects again at the same endpoint; the backoff has doubled by then, up to the
/// cap.
pub proof fn leaving_leads_to_a_new_connection(
    client: WSClientView,
    session: Session,
    event: WsEvent,
)
    requires
        awaited(session.phase, event),
        session.next(client, event).1 is Sleep,
    ensures
        ({
            let sleeping = session.next(client, event);
            let checking = sleeping.0.next(client, WsEvent::Slept);
            let connecting = checking.0.next(client, WsEvent::ReceiverOpen);
            &&& sleeping.1 == WsActionView::Sleep(session.backoff)
            &&& checking.1 == WsActionView::CheckReceiver
            &&& connecting.1 matches WsActionView::Connect { url, .. } && url == client.url
            &&& connecting.0.phase == Phase::Connecting
            &&& 2 * session.backoff <= client.cfg.max_backoff ==> connecting.0.backoff == 2
                * session.backoff
            &&& 2 * session.backoff > client.cfg.max_backoff ==> connecting.0.backoff
                == client.cfg.max_backoff
        }),
{
}

/// A connection that is closed is left next.
pub proof fn closing_leads_to_leaving(client: WSClientView, session: Session, event: WsEvent)
    requires
        awaited(session.phase, event),
        session.next(client, event).1 is Close,
    ensures
        session.next(client, event).0.next(client, WsEvent::Closed).1 == WsActionView::Sleep(
            session.backoff,
        ),
{
}

/// The backoff changes only when the session leaves a connection or subscribes.
pub proof fn backoff_changes_only_then(client: WSClientView, session: Session, event: WsEvent)
    requires
        awaited(session.phase, event),
    ensures
        session.next(client, event).0.backoff != session.backoff ==> session.next(client, event).1
            is Sleep || (session.phase == Phase::Subscribing && event is Sent),
{
}

/// The session stops if and only if nobody takes the updates when it is about to
/// connect, and a receiver that is gone leads there.
pub proof fn stops_when_the_receiver_is_gone(client: WSClientView, session: Session)
    requires
        session.phase == Phase::Rechecking,
    ensures
        ({
            let closing = session.next(client, WsEvent::ReceiverClosed);
            let sleeping = closing.0.next(client, WsEvent::Closed);
            let checking = sleeping.0.next(client, WsEvent::Slept);
            let stopped = checking.0.next(client, WsEvent::ReceiverClosed);
            &&& closing.1 == WsActionView::Close
            &&& sleeping.1 == WsActionView::Sleep(session.backoff)
            &&& stopped.1 == WsActionView::Stop
            &&& stopped.0.phase == Phase::Stopped
        }),
{
}

/// Whether an event is what an action can bring.
pub open spec fn can_bring(action: WsActionView, event: WsEvent) -> bool {
    match action {
        WsActionView::CheckReceiver => event is ReceiverOpen || event is ReceiverClosed,
        WsActionView::Connect { .. } => event is Connected || event is ConnectFailed,
        WsActionView::SendText(_) | WsActionView::SendPing | WsActionView::SendPong(_) => event
            is Sent || event is SendFailed,
        WsActionView::ReadElapsed => event is Elapsed,
        WsActionView::ReadFrame { .. } => event is Frame || event is Silence,
        WsActionView::ReadTime => event is Time,
        WsActionView::Listen { .. } => event is Frame || event is PingDue,
        WsActionView::Forward(_) => event is Forwarded,
        WsActionView::Close => event is Closed,
        WsActionView::Sleep(_) => event is Slept,
        WsActionView::Stop => false,
    }
}

/// Whatever an action brings is awaited afterwards, and nothing else is; a new
/// session awaits the outcome of the first check.
pub proof fn outcomes_are_awaited(
    client: WSClientView,
    session: Session,
    event: WsEvent,
    outcome: WsEvent,
    told: bool,
)
    requires
        awaited(session.phase, event),
        call_ensures(
            WSClient::is_awaited,
            (session.next(client, event).0.phase, &outcome),
            told,
        ),
    ensures
        told <==> can_bring(session.next(client, event).1, outcome),
        awaited(session.next(client, event).0.phase, outcome) <==> told,
        awaited(fresh(client).phase, WsEvent::ReceiverOpen) && awaited(
            fresh(client).phase,
            WsEvent::ReceiverClosed,
        ),
{
    types_differ();
}

/// An action is seen as what it is, with what it carries.
pub proof fn actions_are_seen_as_they_are(action: WsAction)
    ensures
        action is CheckReceiver <==> action@ is CheckReceiver,
        action is ReadElapsed <==> action@ is ReadElapsed,
        action is ReadTime <==> action@ is ReadTime,
        action is Close <==> action@ is Close,
        action is Stop <==> action@ is Stop,
        action matches WsAction::Connect { url, subprotocol } ==> action@
            == (WsActionView::Connect { url: url@, subprotocol: subprotocol@ }),
        action matches WsAction::Send(Outgoing::Text(json)) ==> action@ == WsActionView::SendText(
            json@,
        ),
        action == WsAction::Send(Outgoing::Ping) ==> action@ == WsActionView::SendPing,
        action matches WsAction::Send(Outgoing::Pong(payload)) ==> action@
            == WsActionView::SendPong(payload@),
        action matches WsAction::ReadFrame { timeout } ==> action@ == (WsActionView::ReadFrame {
            timeout,
        }),
        action matches WsAction::Listen { start_pings } ==> action@ == (WsActionView::Listen {
            start_pings,
        }),
        action matches WsAction::Forward(json) ==> action@ == WsActionView::Forward(json@),
        action matches WsAction::Sleep(delay) ==> action@ == WsActionView::Sleep(delay),
{
}

} // verus!
