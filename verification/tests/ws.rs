use cdk_blink::blink::ws::{
    classify, init_message, is_connection_ack, subscribe_message, subscription_id, Incoming,
    Outgoing, Phase, Session, Verdict, WSClient, WSConfig, WsAction, WsEvent, SUBSCRIPTION_QUERY,
};
use cdk_blink::json::Json;

fn client() -> WSClient {
    WSClient::new("https://api.blink.sv/graphql", "key")
}

fn text(s: &str) -> WsEvent {
    WsEvent::Frame(Incoming::Text(s.to_string()))
}

fn step(client: &WSClient, session: &mut Session, event: WsEvent) -> WsAction {
    assert!(WSClient::is_awaited(session.phase, &event), "{:?} in {:?}", event, session.phase);
    client.stream_my_updates(session, event)
}

/// Brings a session to where it listens for updates.
fn subscribed(client: &WSClient) -> Session {
    let mut session = client.session();
    step(client, &mut session, WsEvent::ReceiverOpen);
    step(client, &mut session, WsEvent::Connected);
    step(client, &mut session, WsEvent::Sent);
    step(client, &mut session, WsEvent::Elapsed(0));
    step(client, &mut session, text(r#"{"type":"connection_ack"}"#));
    step(client, &mut session, WsEvent::Time(Some(7)));
    step(client, &mut session, WsEvent::Sent);
    assert_eq!(session.phase, Phase::Listening);
    session
}

#[test]
fn endpoints_are_converted() {
    assert_eq!(client().url, "wss://ws.blink.sv/graphql");
    assert_eq!(WSClient::new("http://localhost:80", "k").url, "ws://localhost:80");
    assert_eq!(
        WSClient::new("https://blink.test/api.v1/graphql", "k").url,
        "wss://blink.test/api.v1/graphql"
    );
    assert_eq!(WSClient::new("https://api.other.test", "k").url, "wss://api.other.test");
    assert_eq!(client().api_key, "key");
    let cfg = WSConfig::default();
    assert_eq!(cfg.ping_interval, 30_000);
    assert_eq!(cfg.ack_timeout, 10_000);
    assert_eq!(cfg.initial_backoff, 1_000);
    assert_eq!(cfg.max_backoff, 30_000);
}

#[test]
fn messages_have_the_form_of_the_protocol() {
    let init = init_message("key");
    assert_eq!(init.get("type").and_then(|t| t.as_str()), Some("connection_init"));
    assert_eq!(
        init.get("payload").and_then(|p| p.get("X-API-KEY")).and_then(|k| k.as_str()),
        Some("key")
    );
    let subscribe = subscribe_message("sub-1");
    assert_eq!(subscribe.get("id").and_then(|t| t.as_str()), Some("sub-1"));
    assert_eq!(subscribe.get("type").and_then(|t| t.as_str()), Some("subscribe"));
    assert_eq!(
        subscribe.get("payload").and_then(|p| p.get("query")).and_then(|q| q.as_str()),
        Some(SUBSCRIPTION_QUERY)
    );
    assert_eq!(subscription_id(Some(-12)), "sub--12");
    assert_eq!(subscription_id(Some(1700)), "sub-1700");
    assert_eq!(subscription_id(None), "sub-0");
}

#[test]
fn messages_are_told_apart_by_type() {
    let verdict = |s: &str| classify(&Json::parse(s).expect("json"));
    assert_eq!(verdict(r#"{"type":"next"}"#), Verdict::Forward);
    assert_eq!(verdict(r#"{"type":"data"}"#), Verdict::Forward);
    assert_eq!(verdict(r#"{"type":"complete"}"#), Verdict::Disconnect);
    assert_eq!(verdict(r#"{"type":"error"}"#), Verdict::Disconnect);
    assert_eq!(verdict(r#"{"type":"connection_error"}"#), Verdict::Disconnect);
    assert_eq!(verdict(r#"{"type":"ping"}"#), Verdict::Ignore);
    assert_eq!(verdict(r#"{"type":3}"#), Verdict::Ignore);
    assert_eq!(verdict("[]"), Verdict::Ignore);
    assert!(is_connection_ack(&Json::parse(r#"{"type":"connection_ack"}"#).expect("json")));
    assert!(!is_connection_ack(&Json::parse(r#"{"type":"next"}"#).expect("json")));
}

#[test]
fn a_session_connects_and_subscribes() {
    let client = client();
    let mut session = client.session();
    let action = step(&client, &mut session, WsEvent::ReceiverOpen);
    assert!(matches!(
        action,
        WsAction::Connect { url, subprotocol }
            if url == "wss://ws.blink.sv/graphql" && subprotocol == "graphql-transport-ws"
    ));
    let action = step(&client, &mut session, WsEvent::Connected);
    assert!(matches!(
        action,
        WsAction::Send(Outgoing::Text(m))
            if m.get("type").and_then(|t| t.as_str()) == Some("connection_init")
    ));
    assert!(matches!(step(&client, &mut session, WsEvent::Sent), WsAction::ReadElapsed));
    assert!(matches!(
        step(&client, &mut session, WsEvent::Elapsed(9_999)),
        WsAction::ReadFrame { timeout: 500 }
    ));
    assert!(matches!(step(&client, &mut session, WsEvent::Silence), WsAction::ReadElapsed));
    step(&client, &mut session, WsEvent::Elapsed(9_999));
    assert!(matches!(step(&client, &mut session, text("no json")), WsAction::ReadElapsed));
    step(&client, &mut session, WsEvent::Elapsed(9_999));
    assert!(matches!(
        step(&client, &mut session, text(r#"{"type":"connection_ack"}"#)),
        WsAction::ReadTime
    ));
    let action = step(&client, &mut session, WsEvent::Time(Some(7)));
    assert!(matches!(
        action,
        WsAction::Send(Outgoing::Text(m)) if m.get("id").and_then(|t| t.as_str()) == Some("sub-7")
    ));
    assert!(matches!(
        step(&client, &mut session, WsEvent::Sent),
        WsAction::Listen { start_pings: Some(30_000) }
    ));
}

#[test]
fn a_late_acknowledgement_is_not_awaited() {
    let client = client();
    let mut session = client.session();
    step(&client, &mut session, WsEvent::ReceiverOpen);
    step(&client, &mut session, WsEvent::Connected);
    step(&client, &mut session, WsEvent::Sent);
    assert!(matches!(step(&client, &mut session, WsEvent::Elapsed(10_000)), WsAction::Close));
    assert!(matches!(step(&client, &mut session, WsEvent::Closed), WsAction::Sleep(1_000)));
    assert_eq!(session.backoff, 2_000);
    assert!(matches!(step(&client, &mut session, WsEvent::Slept), WsAction::CheckReceiver));
}

#[test]
fn failures_before_the_subscription_back_off() {
    let client = client();
    let mut session = client.session();
    let mut delays = Vec::new();
    for _ in 0..7 {
        step(&client, &mut session, WsEvent::ReceiverOpen);
        match step(&client, &mut session, WsEvent::ConnectFailed) {
            WsAction::Sleep(delay) => delays.push(delay),
            other => panic!("{:?}", other),
        }
        step(&client, &mut session, WsEvent::Slept);
    }
    assert_eq!(delays, vec![1_000, 2_000, 4_000, 8_000, 16_000, 30_000, 30_000]);
}

#[test]
fn failed_sends_and_reads_give_the_connection_up() {
    let client = client();
    let mut session = client.session();
    step(&client, &mut session, WsEvent::ReceiverOpen);
    step(&client, &mut session, WsEvent::Connected);
    assert!(matches!(step(&client, &mut session, WsEvent::SendFailed), WsAction::Close));

    for frame in [Incoming::Failed, Incoming::Ended] {
        let mut session = Session { phase: Phase::AckFrame, backoff: 1_000 };
        let event = WsEvent::Frame(frame);
        assert!(matches!(step(&client, &mut session, event), WsAction::Close));
    }
    let mut session = Session { phase: Phase::Subscribing, backoff: 4_000 };
    assert!(matches!(step(&client, &mut session, WsEvent::SendFailed), WsAction::Close));
    assert!(matches!(step(&client, &mut session, WsEvent::Closed), WsAction::Sleep(4_000)));
}

#[test]
fn subscribing_resets_the_backoff() {
    let client = client();
    let mut session = Session { phase: Phase::Subscribing, backoff: 16_000 };
    step(&client, &mut session, WsEvent::Sent);
    assert_eq!(session, Session { phase: Phase::Listening, backoff: 1_000 });
}

#[test]
fn updates_are_forwarded_as_they_came() {
    let client = client();
    let mut session = subscribed(&client);
    let action =
        step(&client, &mut session, text(r#"{"type":"next","payload":{"n":1,"f":0.25}}"#));
    let WsAction::Forward(message) = action else {
        panic!("expected an update");
    };
    let payload = message.get("payload").expect("payload");
    assert_eq!(payload.get("n").and_then(|n| n.as_i64()), Some(1));
    assert!(matches!(payload.get("f"), Some(Json::Number(n)) if n.text == "0.25"));
    assert!(matches!(step(&client, &mut session, WsEvent::Forwarded), WsAction::CheckReceiver));
    assert!(matches!(
        step(&client, &mut session, WsEvent::ReceiverOpen),
        WsAction::Listen { start_pings: None }
    ));
    for other in ["no json", r#"{"type":"ka"}"#] {
        assert!(matches!(step(&client, &mut session, text(other)), WsAction::CheckReceiver));
        step(&client, &mut session, WsEvent::ReceiverOpen);
    }
    let event = WsEvent::Frame(Incoming::Other);
    assert!(matches!(step(&client, &mut session, event), WsAction::CheckReceiver));
}

#[test]
fn pings_are_sent_and_answered() {
    let client = client();
    let mut session = subscribed(&client);
    let event = WsEvent::Frame(Incoming::Ping(vec![1, 2]));
    assert!(matches!(
        step(&client, &mut session, event),
        WsAction::Send(Outgoing::Pong(p)) if p == vec![1, 2]
    ));
    step(&client, &mut session, WsEvent::SendFailed);
    step(&client, &mut session, WsEvent::ReceiverOpen);
    assert!(matches!(
        step(&client, &mut session, WsEvent::PingDue),
        WsAction::Send(Outgoing::Ping)
    ));
    assert!(matches!(step(&client, &mut session, WsEvent::SendFailed), WsAction::Sleep(1_000)));

    let mut session = Session { phase: Phase::AckFrame, backoff: 1_000 };
    let event = WsEvent::Frame(Incoming::Ping(vec![9]));
    assert!(matches!(
        step(&client, &mut session, event),
        WsAction::Send(Outgoing::Pong(p)) if p == vec![9]
    ));
    assert!(matches!(step(&client, &mut session, WsEvent::SendFailed), WsAction::ReadElapsed));
}

#[test]
fn a_lost_connection_is_made_anew() {
    let client = client();
    for event in [
        text(r#"{"type":"complete"}"#),
        text(r#"{"id":"s","type":"error","payload":[{"message":"bad"}]}"#),
        text(r#"{"type":"connection_error"}"#),
        WsEvent::Frame(Incoming::Close),
        WsEvent::Frame(Incoming::Failed),
        WsEvent::Frame(Incoming::Ended),
    ] {
        let mut session = subscribed(&client);
        assert!(matches!(step(&client, &mut session, event), WsAction::Sleep(1_000)));
        assert!(matches!(step(&client, &mut session, WsEvent::Slept), WsAction::CheckReceiver));
        assert!(matches!(
            step(&client, &mut session, WsEvent::ReceiverOpen),
            WsAction::Connect { .. }
        ));
    }
}

#[test]
fn a_session_stops_when_nobody_listens() {
    let client = client();
    let mut session = subscribed(&client);
    step(&client, &mut session, WsEvent::Frame(Incoming::Other));
    assert!(matches!(step(&client, &mut session, WsEvent::ReceiverClosed), WsAction::Close));
    assert!(matches!(step(&client, &mut session, WsEvent::Closed), WsAction::Sleep(_)));
    step(&client, &mut session, WsEvent::Slept);
    assert!(matches!(step(&client, &mut session, WsEvent::ReceiverClosed), WsAction::Stop));
    assert_eq!(session.phase, Phase::Stopped);
    assert!(!WSClient::is_awaited(session.phase, &WsEvent::ReceiverOpen));
}
