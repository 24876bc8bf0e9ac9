use cdk_blink::amount::{Amount, CurrencyUnit};
use cdk_blink::backend::{
    BlinkBackend, PaymentEventStreamActivity, PaymentOrder, PaymentStep, RelayAction, RelayEvent,
    SetupError, SetupStep,
};
use cdk_blink::blink::rest::{
    BlinkError, Exchange, GraphqlReply, HttpRequest, InvoiceDetails, RequestStep, Wallet,
};
use cdk_blink::bolt11::Bolt11Invoice;
use cdk_blink::json::Json;
use cdk_blink::payment::{
    Bolt11IncomingPaymentOptions, Bolt11Settings, Event, IncomingPaymentOptions, MeltQuoteState,
    OutgoingPaymentOptions, PaymentError, PaymentIdentifier,
};
use cdk_blink::settings::BackendConfig;

const INVOICE: &str = "lnbc2500u1pvjluezsp5zyg3zyg3zyg3zyg3zyg3zyg3zyg3zyg3zyg3zyg3zyg3zyg3zygspp5qqqsyqcyq5rqwzqfqqqsyqcyq5rqwzqfqqqsyqcyq5rqwzqfqypqdq5xysxxatsyp3k7enxv4jsxqzpu9qrsgquk0rl77nj30yxdy8j9vdx85fkpmdla2087ne0xh8nhedh8w27kyke0lp53ut353s06fv3qfegext0eh0ymjpf39tuven09sam30g4vgpfna3rh";

fn json(text: &str) -> Json {
    Json::parse(text).expect("json")
}

fn blink_error(message: &str) -> BlinkError {
    BlinkError::Reported(message.to_string())
}

fn invoice(amount_msat: Option<u64>) -> Bolt11Invoice {
    Bolt11Invoice { text: "lnbc-text".to_string(), amount_msat, payment_hash: [3u8; 32] }
}

fn order(amount_sats: u64) -> PaymentOrder {
    PaymentOrder { amount_sats, bolt11: "lnbc-text".to_string(), payment_hash: [3u8; 32] }
}

fn config(api_url: &str, api_key: &str, wallet_id: &str) -> BackendConfig {
    BackendConfig {
        api_url: api_url.to_string(),
        api_key: api_key.to_string(),
        wallet_id: wallet_id.to_string(),
    }
}

fn backend() -> BlinkBackend {
    match BlinkBackend::new(&config("https://x.test", "key", "w")) {
        Ok(SetupStep::Ready(backend)) => backend,
        other => panic!("{:?}", other),
    }
}

fn input<'a>(request: &'a HttpRequest, key: &str) -> Option<&'a str> {
    request
        .body
        .get("variables")
        .and_then(|v| v.get("input"))
        .and_then(|i| i.get(key))
        .and_then(|j| j.as_str())
}

fn query(request: &HttpRequest) -> &str {
    request.body.get("query").and_then(|q| q.as_str()).expect("query")
}

fn sent(step: Result<RequestStep, BlinkError>) -> HttpRequest {
    match step {
        Ok(RequestStep::Send(request)) => request,
        other => panic!("{:?}", other),
    }
}

fn wallet(id: &str, currency: &str) -> Wallet {
    Wallet { id: id.to_string(), wallet_currency: currency.to_string(), balance: 0 }
}

#[test]
fn maps_blink_statuses_to_melt_states() {
    assert_eq!(BlinkBackend::melt_state("SUCCESS"), MeltQuoteState::Paid);
    assert_eq!(BlinkBackend::melt_state("PAID"), MeltQuoteState::Paid);
    assert_eq!(BlinkBackend::melt_state("PENDING"), MeltQuoteState::Pending);
    assert_eq!(BlinkBackend::melt_state("FAILURE"), MeltQuoteState::Failed);
    assert_eq!(BlinkBackend::melt_state("FAILED"), MeltQuoteState::Failed);
    assert_eq!(BlinkBackend::melt_state("EXPIRED"), MeltQuoteState::Failed);
    assert_eq!(BlinkBackend::melt_state("???"), MeltQuoteState::Unknown);
}

#[test]
fn decodes_payment_hash_hex() {
    let hash = [7u8; 32];
    let hex_str = hex::encode(hash);
    assert_eq!(BlinkBackend::payment_hash_bytes(&hex_str).unwrap(), hash);
    assert!(BlinkBackend::payment_hash_bytes("not-hex").is_err());
    assert!(BlinkBackend::payment_hash_bytes("abcd").is_err());
}

#[test]
fn converts_paid_ws_event_to_payment_received() {
    let event = json(&format!(
        r#"{{
            "payload": {{
                "data": {{
                    "myUpdates": {{
                        "update": {{
                            "status": "PAID",
                            "transaction": {{
                                "id": "txn-1",
                                "direction": "RECEIVE",
                                "settlementAmount": 1234,
                                "initiationVia": {{
                                    "paymentHash": "{}"
                                }}
                            }}
                        }}
                    }}
                }}
            }}
        }}"#,
        hex::encode([9u8; 32])
    ));

    let Some(Event::PaymentReceived(resp)) = BlinkBackend::ws_event_to_cdk(&event) else {
        panic!("expected PaymentReceived event");
    };
    assert_eq!(
        resp.payment_identifier,
        PaymentIdentifier::PaymentHash([9u8; 32])
    );
    assert_eq!(resp.payment_amount, Amount::new(1234, CurrencyUnit::Sat));
    assert_eq!(resp.payment_id, "txn-1");
}

#[test]
fn ignores_non_paid_ws_events() {
    let event = json(&format!(
        r#"{{
            "payload": {{
                "data": {{
                    "myUpdates": {{
                        "update": {{
                            "status": "PENDING",
                            "transaction": {{
                                "id": "txn-1",
                                "settlementAmount": 1234,
                                "initiationVia": {{
                                    "paymentHash": "{}"
                                }}
                            }}
                        }}
                    }}
                }}
            }}
        }}"#,
        hex::encode([9u8; 32])
    ));
    assert!(BlinkBackend::ws_event_to_cdk(&event).is_none());

    let malformed = json(r#"{"payload": {"data": {}}}"#);
    assert!(BlinkBackend::ws_event_to_cdk(&malformed).is_none());
}

fn update(status: &str, transaction: &str) -> Json {
    json(&format!(
        r#"{{"payload":{{"data":{{"myUpdates":{{"update":{{"status":"{}","transaction":{}}}}}}}}}}}"#,
        status, transaction
    ))
}

#[test]
fn incomplete_updates_are_read_leniently() {
    let hash = hex::encode([1u8; 32]);
    let txn = format!(
        r#"{{"settlementAmount":-5,"initiationVia":{{"paymentHash":"{}"}}}}"#,
        hash
    );
    let Some(Event::PaymentReceived(resp)) = BlinkBackend::ws_event_to_cdk(&update("paid", &txn))
    else {
        panic!("expected an event");
    };
    assert_eq!(resp.payment_amount, Amount::new(0, CurrencyUnit::Sat));
    assert_eq!(resp.payment_id, hash);

    assert!(BlinkBackend::ws_event_to_cdk(&update("PAID", "null")).is_none());
    let empty = r#"{"initiationVia":{"paymentHash":""}}"#;
    assert!(BlinkBackend::ws_event_to_cdk(&update("PAID", empty)).is_none());
    let short = r#"{"initiationVia":{"paymentHash":"abcd"}}"#;
    assert!(BlinkBackend::ws_event_to_cdk(&update("PAID", short)).is_none());
}

#[test]
fn setup_needs_an_api_key_and_a_url() {
    let url = "https://api.blink.sv/graphql";
    let e = BlinkBackend::new(&config(url, "", "")).unwrap_err();
    assert!(matches!(e, SetupError::MissingApiKey));
    assert_eq!(e.message(), "Blink API key is required (set BLINK_API_KEY)");

    let e = BlinkBackend::new(&config("no url", "key", "")).unwrap_err();
    assert!(matches!(&e, SetupError::Client(BlinkError::InvalidUrl(_))));
    assert_eq!(e.message(), "relative URL without a base");
}

#[test]
fn setup_asks_for_the_default_wallet_if_none_is_configured() {
    let url = "https://API.blink.sv";
    assert!(matches!(
        BlinkBackend::new(&config(url, "key", "w")),
        Ok(SetupStep::Ready(backend)) if backend.client.api_url() == "https://api.blink.sv/"
    ));
    let Ok(SetupStep::Query(backend, request)) = BlinkBackend::new(&config(url, "key", "")) else {
        panic!("expected a query");
    };
    assert_eq!(request.url, "https://api.blink.sv/");
    let reply = GraphqlReply {
        status: 200,
        data: Some(vec![wallet("usd", "USD"), wallet("btc", "BTC"), wallet("btc2", "BTC")]),
        errors: None,
    };
    let backend = backend.with_default_wallet(Exchange::Replied(reply)).expect("wallet");
    let request = backend.client.probe_fee_request("btc", "x");
    assert!(request.body.get("variables").is_some());
    assert!(matches!(
        backend.client.resolve_wallet_id(),
        cdk_blink::blink::rest::WalletStep::Use(id) if id == "btc"
    ));
}

#[test]
fn setup_fails_without_a_wallet() {
    let step = BlinkBackend::new(&config("https://x.test", "key", "")).expect("step");
    let SetupStep::Query(backend, _) = step else {
        panic!("expected a query");
    };
    let none = GraphqlReply { status: 200, data: Some(Vec::new()), errors: None };
    let e = backend.clone().with_default_wallet(Exchange::Replied(none)).unwrap_err();
    assert_eq!(e.message(), "no wallet found");
    let e = backend.with_default_wallet(Exchange::Failed("down".to_string())).unwrap_err();
    assert_eq!(e.message(), "down");
}

#[test]
fn settings_name_bolt11_alone() {
    let backend = backend();
    let settings = backend.get_settings();
    assert_eq!(settings.unit, "sat");
    assert_eq!(
        settings.bolt11,
        Some(Bolt11Settings { mpp: false, amountless: false, invoice_description: true })
    );
    assert_eq!(settings.bolt12, None);
    assert_eq!(settings.onchain, None);
    assert!(settings.custom.is_empty());
    assert_eq!(backend.subscription().url, "wss://x.test/");
    assert_eq!(backend.subscription().api_key, "key");
}

#[test]
fn identifiers_other_than_hashes_are_refused() {
    let hash = PaymentIdentifier::PaymentHash([0x1fu8; 32]);
    assert_eq!(BlinkBackend::payment_hash_hex(&hash).expect("hash"), "1f".repeat(32));
    for id in [
        PaymentIdentifier::Label("x".to_string()),
        PaymentIdentifier::OfferId("x".to_string()),
        PaymentIdentifier::Bolt12PaymentHash([1u8; 32]),
        PaymentIdentifier::PaymentId([1u8; 32]),
        PaymentIdentifier::CustomId("x".to_string()),
        PaymentIdentifier::QuoteId("x".to_string()),
    ] {
        assert!(matches!(
            BlinkBackend::payment_hash_hex(&id),
            Err(PaymentError::Custom(m)) if m == "Unsupported payment identifier type"
        ));
        let told = || Ok(("PAID".to_string(), INVOICE.to_string(), "pre".to_string()));
        assert!(matches!(
            BlinkBackend::check_incoming_payment_status(&id, told()),
            Err(PaymentError::Custom(m)) if m == "Unsupported payment identifier type"
        ));
        assert!(matches!(
            BlinkBackend::check_outgoing_payment(&id, told()),
            Err(PaymentError::Custom(m)) if m == "Unsupported payment identifier type"
        ));
    }
}

fn incoming(value: u64, unit: CurrencyUnit, description: Option<&str>) -> IncomingPaymentOptions {
    IncomingPaymentOptions::Bolt11(Bolt11IncomingPaymentOptions {
        description: description.map(|s| s.to_string()),
        amount: Amount::new(value, unit),
        unix_expiry: Some(99),
    })
}

#[test]
fn invoices_are_ordered_in_satoshis() {
    let order = BlinkBackend::create_incoming_payment_request(incoming(
        2500,
        CurrencyUnit::Msat,
        Some("tea"),
    ))
    .expect("order");
    assert_eq!((order.amount_sats, order.memo.as_str(), order.expiry), (2, "tea", Some(99)));
    let order =
        BlinkBackend::create_incoming_payment_request(incoming(7, CurrencyUnit::Sat, None))
            .expect("order");
    assert_eq!(order.memo, "");

    assert!(matches!(
        BlinkBackend::create_incoming_payment_request(incoming(999, CurrencyUnit::Msat, None)),
        Err(PaymentError::AmountMismatch)
    ));
    assert!(matches!(
        BlinkBackend::create_incoming_payment_request(incoming(5, CurrencyUnit::Usd, None)),
        Err(PaymentError::Amount)
    ));
    assert!(matches!(
        BlinkBackend::create_incoming_payment_request(IncomingPaymentOptions::Bolt12),
        Err(PaymentError::UnsupportedPaymentOption)
    ));
}

#[test]
fn created_invoices_are_identified_by_their_hash() {
    let order =
        BlinkBackend::create_incoming_payment_request(incoming(7, CurrencyUnit::Sat, None))
            .expect("order");
    let details = InvoiceDetails {
        payment_request: "lnbc1".to_string(),
        payment_hash: "AB".repeat(32),
        payment_secret: "s".to_string(),
        satoshis: 7,
    };
    let response =
        BlinkBackend::incoming_payment_created(order.clone(), Ok(details.clone())).expect("ok");
    assert_eq!(response.request_lookup_id, PaymentIdentifier::PaymentHash([0xabu8; 32]));
    assert_eq!(response.request, "lnbc1");
    assert_eq!(response.expiry, Some(99));
    assert_eq!(response.extra_json, None);
    assert_eq!(
        BlinkBackend::payment_hash_hex(&response.request_lookup_id).expect("hash"),
        "ab".repeat(32)
    );

    let mut bad = details;
    bad.payment_hash = "abc123".to_string();
    assert!(matches!(
        BlinkBackend::incoming_payment_created(order.clone(), Ok(bad)),
        Err(PaymentError::InvalidHash)
    ));
    assert!(matches!(
        BlinkBackend::incoming_payment_created(order, Err(blink_error("no"))),
        Err(PaymentError::Lightning(e)) if e.message() == "no"
    ));
}

#[test]
fn payments_are_ordered_with_their_amount_rounded_up() {
    let order =
        BlinkBackend::payment_order(OutgoingPaymentOptions::Bolt11(invoice(Some(1001))))
            .expect("order");
    assert_eq!(order.amount_sats, 2);
    assert_eq!(order.bolt11, "lnbc-text");
    assert_eq!(order.payment_hash, [3u8; 32]);
    for amount in [None, Some(0)] {
        assert!(matches!(
            BlinkBackend::payment_order(OutgoingPaymentOptions::Bolt11(invoice(amount))),
            Err(PaymentError::AmountMismatch)
        ));
    }
    for options in [
        OutgoingPaymentOptions::Bolt12,
        OutgoingPaymentOptions::Custom,
        OutgoingPaymentOptions::Onchain,
    ] {
        assert!(matches!(
            BlinkBackend::payment_order(options),
            Err(PaymentError::UnsupportedPaymentOption)
        ));
    }
}

#[test]
fn quotes_use_the_probed_fee_or_an_estimate() {
    let unit = CurrencyUnit::Sat;
    let quote = BlinkBackend::get_payment_quote(&order(5000), &unit, Ok(3));
    assert_eq!(quote.amount, Amount::new(5000, CurrencyUnit::Sat));
    assert_eq!(quote.fee, Amount::new(3, CurrencyUnit::Sat));
    assert_eq!(quote.state, MeltQuoteState::Unpaid);
    assert_eq!(quote.request_lookup_id, Some(PaymentIdentifier::PaymentHash([3u8; 32])));
    let quote = BlinkBackend::get_payment_quote(&order(5099), &unit, Err(blink_error("x")));
    assert_eq!(quote.fee.value, 50);
    let quote = BlinkBackend::get_payment_quote(&order(99), &unit, Err(blink_error("x")));
    assert_eq!(quote.fee.value, 1);
    assert_eq!(quote.fee_options, None);
}

#[test]
fn payment_errors_are_told_apart_by_their_message() {
    let unit = CurrencyUnit::Sat;
    assert!(matches!(
        backend().make_payment(&order(1), &unit, Err(blink_error("Invoice is ALREADY Paid"))),
        Err(PaymentError::InvoiceAlreadyPaid)
    ));
    assert!(matches!(
        backend().make_payment(&order(1), &unit, Err(blink_error("Still PENDING"))),
        Err(PaymentError::InvoicePaymentPending)
    ));
    assert!(matches!(
        backend().make_payment(&order(1), &unit, Err(blink_error("no route"))),
        Err(PaymentError::Lightning(e)) if e.message() == "no route"
    ));
}

#[test]
fn successful_payments_are_proved_by_their_preimage() {
    let unit = CurrencyUnit::Sat;
    let step = backend().make_payment(&order(7), &unit, Ok("Success".to_string())).expect("ok");
    let PaymentStep::FetchProof(status, request) = step else {
        panic!("expected a proof to be fetched");
    };
    assert_eq!(input(&request, "paymentRequest"), Some("lnbc-text"));
    let told = Ok(("PAID".to_string(), "hash".to_string(), "pre".to_string()));
    let response = BlinkBackend::payment_proved(&order(7), &unit, &status, told);
    assert_eq!(response.payment_proof, Some("pre".to_string()));
    assert_eq!(response.status, MeltQuoteState::Paid);
    assert_eq!(response.total_spent, Amount::new(7, CurrencyUnit::Sat));
    assert_eq!(response.payment_lookup_id, PaymentIdentifier::PaymentHash([3u8; 32]));

    let untold = Ok(("PAID".to_string(), "hash".to_string(), String::new()));
    assert_eq!(BlinkBackend::payment_proved(&order(7), &unit, &status, untold).payment_proof, None);
    let failed = Err(blink_error("x"));
    assert_eq!(BlinkBackend::payment_proved(&order(7), &unit, &status, failed).payment_proof, None);
}

#[test]
fn pending_payments_have_no_proof() {
    let unit = CurrencyUnit::Sat;
    let step = backend().make_payment(&order(7), &unit, Ok("PENDING".to_string())).expect("ok");
    let PaymentStep::Done(response) = step else {
        panic!("expected an answer");
    };
    assert_eq!(response.status, MeltQuoteState::Pending);
    assert_eq!(response.payment_proof, None);
}

#[test]
fn incoming_payments_are_reported_once_paid() {
    let id = PaymentIdentifier::PaymentHash([5u8; 32]);
    let paid = Ok(("Paid".to_string(), INVOICE.to_string(), "pre".to_string()));
    let payments = BlinkBackend::check_incoming_payment_status(&id, paid).expect("ok");
    assert_eq!(payments.len(), 1);
    assert_eq!(payments[0].payment_identifier, id);
    assert_eq!(payments[0].payment_amount, Amount::new(250_000, CurrencyUnit::Sat));
    assert_eq!(payments[0].payment_id, "pre");

    let unreadable = Ok(("PAID".to_string(), "req".to_string(), String::new()));
    let payments = BlinkBackend::check_incoming_payment_status(&id, unreadable).expect("ok");
    assert_eq!(payments[0].payment_amount.value, 0);

    let pending = Ok(("PENDING".to_string(), INVOICE.to_string(), "pre".to_string()));
    assert!(BlinkBackend::check_incoming_payment_status(&id, pending).expect("ok").is_empty());
    assert!(matches!(
        BlinkBackend::check_incoming_payment_status(&id, Err(blink_error("x"))),
        Err(PaymentError::Lightning(_))
    ));
}

#[test]
fn outgoing_payments_are_proved_only_when_paid() {
    let id = PaymentIdentifier::PaymentHash([5u8; 32]);
    let paid = Ok(("PAID".to_string(), INVOICE.to_string(), "pre".to_string()));
    let response = BlinkBackend::check_outgoing_payment(&id, paid).expect("ok");
    assert_eq!(response.payment_proof, Some("pre".to_string()));
    assert_eq!(response.status, MeltQuoteState::Paid);
    assert_eq!(response.total_spent, Amount::new(250_000, CurrencyUnit::Sat));
    let failed = Ok(("EXPIRED".to_string(), INVOICE.to_string(), "pre".to_string()));
    let response = BlinkBackend::check_outgoing_payment(&id, failed).expect("ok");
    assert_eq!(response.payment_proof, None);
    assert_eq!(response.status, MeltQuoteState::Failed);
    assert_eq!(response.total_spent.value, 0);
    assert!(matches!(
        BlinkBackend::check_outgoing_payment(&id, Err(blink_error("x"))),
        Err(PaymentError::Lightning(_))
    ));
}

#[test]
fn streams_are_counted_while_active() {
    let mut count = 0usize;
    let mut a = PaymentEventStreamActivity::new(&mut count);
    let mut b = PaymentEventStreamActivity::new(&mut count);
    assert_eq!(count, 2);
    a.deactivate(&mut count);
    a.deactivate(&mut count);
    assert_eq!(count, 1);
    assert!(BlinkBackend::is_payment_event_stream_active(count));
    b.deactivate(&mut count);
    assert!(!BlinkBackend::is_payment_event_stream_active(count));
}

#[test]
fn streams_relay_payments_and_end() {
    let hash = hex::encode([2u8; 32]);
    let txn = format!(r#"{{"initiationVia":{{"paymentHash":"{}"}}}}"#, hash);
    let mut count = 0usize;
    let mut mark = PaymentEventStreamActivity::new(&mut count);

    let event = RelayEvent::Update(update("PAID", &txn));
    let action = BlinkBackend::wait_payment_event(event, &mut mark, &mut count);
    assert!(matches!(action, RelayAction::Send(_)));
    let event = RelayEvent::Update(update("PENDING", &txn));
    let action = BlinkBackend::wait_payment_event(event, &mut mark, &mut count);
    assert!(matches!(action, RelayAction::Wait));
    let action = BlinkBackend::wait_payment_event(RelayEvent::Sent, &mut mark, &mut count);
    assert!(matches!(action, RelayAction::Wait));
    assert!(mark.active);
    assert_eq!(count, 1);

    for event in [
        RelayEvent::Cancelled,
        RelayEvent::ReceiverClosed,
        RelayEvent::UpdatesEnded,
        RelayEvent::SendFailed,
    ] {
        let mut count = 5usize;
        let mut mark = PaymentEventStreamActivity::new(&mut count);
        let action = BlinkBackend::wait_payment_event(event, &mut mark, &mut count);
        assert!(matches!(action, RelayAction::Finish));
        assert!(!mark.active);
        assert_eq!(count, 5);
        mark.deactivate(&mut count);
        assert_eq!(count, 5);
    }
}

#[test]
fn requests_are_those_of_their_operation() {
    let backend = backend();
    let id = PaymentIdentifier::PaymentHash([0x1fu8; 32]);
    let request = backend.status_request(&id).expect("request");
    assert_eq!(input(&request, "paymentHash"), Some("1f".repeat(32).as_str()));
    let label = PaymentIdentifier::Label("x".to_string());
    assert!(matches!(
        backend.status_request(&label),
        Err(PaymentError::Custom(m)) if m == "Unsupported payment identifier type"
    ));

    let invoice_order = BlinkBackend::create_incoming_payment_request(incoming(
        7,
        CurrencyUnit::Sat,
        Some("tea"),
    ))
    .expect("order");
    let request = sent(backend.invoice_request(&invoice_order, None));
    assert!(query(&request).contains("mutation LnInvoiceCreate"));
    assert_eq!(input(&request, "walletId"), Some("w"));
    assert_eq!(input(&request, "memo"), Some("tea"));

    let request = sent(backend.probe_request(&order(7), None));
    assert!(query(&request).contains("mutation lnInvoiceFeeProbe"));
    assert_eq!(input(&request, "paymentRequest"), Some("lnbc-text"));
    let request = sent(backend.payment_request(&order(7), None));
    assert!(query(&request).contains("mutation lnInvoicePaymentSend"));
    assert_eq!(input(&request, "paymentRequest"), Some("lnbc-text"));
}
