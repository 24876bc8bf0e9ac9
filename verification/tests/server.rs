use cdk_blink::blink::rest::{
    BlinkError, ErrorDetail, Exchange, GraphqlReply, HttpRequest, InvoiceDetails, RequestStep,
};
use cdk_blink::json::Json;
use cdk_blink::server::{
    Code, CreatePaymentRequest, Identifier, IdentifierKind, IdentifierValue, IncomingOptions,
    OfferQuote, OutgoingLookup, OutgoingOptions, OutgoingPayment, PaymentLimits,
    PaymentProcessorService, PaymentQuoteRequest, QuoteState, QuoteStep,
    RequestedPayment, Status, StreamAction, StreamEvent,
};
use cdk_blink::settings::Config;

const INVOICE: &str = "lnbc9678785340p1pwmna7lpp5gc3xfm08u9qy06djf8dfflhugl6p7lgza6dsjxq454gxhj9t7a0sd8dgfkx7cmtwd68yetpd5s9xar0wfjn5gpc8qhrsdfq24f5ggrxdaezqsnvda3kkum5wfjkzmfqf3jkgem9wgsyuctwdus9xgrcyqcjcgpzgfskx6eqf9hzqnteypzxz7fzypfhg6trddjhygrcyqezcgpzfysywmm5ypxxjemgw3hxjmn8yptk7untd9hxwg3q2d6xjcmtv4ezq7pqxgsxzmnyyqcjqmt0wfjjq6t5v4khxsp5zyg3zyg3zyg3zyg3zyg3zyg3zyg3zyg3zyg3zyg3zyg3zyg3zygsxqyjw5qcqp2rzjq0gxwkzc8w6323m55m4jyxcjwmy7stt9hwkwe2qxmy8zpsgg7jcuwz87fcqqeuqqqyqqqqlgqqqqn3qq9q9qrsgqrvgkpnmps664wgkp43l22qsgdw4ve24aca4nymnxddlnp8vh9v2sdxlu5ywdxefsfvm0fq3sesf08uf6q9a2ke0hc9j6z6wlxg5z5kqpu2v9wz";
const AMOUNTLESS: &str = "lnbc1pvjluezsp5zyg3zyg3zyg3zyg3zyg3zyg3zyg3zyg3zyg3zyg3zyg3zyg3zygspp5qqqsyqcyq5rqwzqfqqqsyqcyq5rqwzqfqqqsyqcyq5rqwzqfqypqdpl2pkx2ctnv5sxxmmwwd5kgetjypeh2ursdae8g6twvus8g6rfwvs8qun0dfjkxaq9qrsgq357wnc5r2ueh7ck6q93dj32dlqnls087fxdwk8qakdyafkq3yap9us6v52vjjsrvywa6rt52cm9r9zqt8r2t7mlcwspyetp5h2tztugp9lfyql";

fn blink_error<T>() -> Result<T, BlinkError> {
    Err(BlinkError::Reported("boom".to_string()))
}

fn internal(message: &str) -> Status {
    Status { code: Code::Internal, message: message.to_string() }
}

fn invalid(message: &str) -> Status {
    Status { code: Code::InvalidArgument, message: message.to_string() }
}

fn service() -> PaymentProcessorService {
    PaymentProcessorService::try_new(Config::default()).expect("service").0
}

fn payment(request: &str) -> RequestedPayment {
    RequestedPayment { request: request.to_string(), limits: limits(None, None) }
}

fn input<'a>(request: &'a HttpRequest, key: &str) -> Option<&'a str> {
    request
        .body
        .get("variables")
        .and_then(|v| v.get("input"))
        .and_then(|i| i.get(key))
        .and_then(|j| j.as_str())
}

fn query(request: &HttpRequest) -> &str {
    request.body.get("query").and_then(|q| q.as_str()).expect("query")
}

fn sent(step: Result<RequestStep, BlinkError>) -> HttpRequest {
    match step {
        Ok(RequestStep::Send(request)) => request,
        other => panic!("{:?}", other),
    }
}

fn limits(max_fee_amount: Option<u64>, timeout_secs: Option<u64>) -> PaymentLimits {
    PaymentLimits { max_fee_amount, timeout_secs }
}

fn by_hash(hash: &str) -> Option<Identifier> {
    Some(Identifier {
        kind: IdentifierKind::PaymentHash,
        value: Some(IdentifierValue::Hash(hash.to_string())),
    })
}

fn told(status: &str, second: &str, preimage: &str) -> Result<(String, String, String), BlinkError> {
    Ok((status.to_string(), second.to_string(), preimage.to_string()))
}

#[test]
fn the_service_reads_its_configuration() {
    let service = service();
    assert_eq!(service.blink.api_url(), "https://api.blink.sv/graphql");
    assert_eq!(service.subscription().url, "wss://ws.blink.sv/graphql");
    let mut cfg = Config::default();
    cfg.backend.api_url = "nowhere".to_string();
    assert!(matches!(PaymentProcessorService::try_new(cfg), Err(BlinkError::InvalidUrl(_))));
}

#[test]
fn the_service_checks_its_connection() {
    let (service, request) = PaymentProcessorService::try_new(Config::default()).expect("service");
    assert_eq!(request.url, "https://api.blink.sv/graphql");
    let query = request.body.get("query").and_then(|q| q.as_str()).expect("query");
    assert!(query.contains("wallets { id walletCurrency balance }"));

    let reply = GraphqlReply { status: 200, data: Some(Vec::new()), errors: None };
    assert!(service.clone().connectivity_checked(Exchange::Replied(reply)).is_ok());
    let down = Exchange::Failed("down".to_string());
    assert_eq!(service.clone().connectivity_checked(down).unwrap_err().message(), "down");
    let denied = GraphqlReply {
        status: 401,
        data: None,
        errors: Some(vec![ErrorDetail { message: "not authorized".to_string() }]),
    };
    assert_eq!(
        service.connectivity_checked(Exchange::Replied(denied)).unwrap_err().message(),
        "not authorized"
    );
}

#[test]
fn the_settings_are_json() {
    let service = service();
    let settings = Json::parse(&service.get_settings()).expect("json");
    assert!(matches!(settings.get("bolt11"), Some(Json::Bool(true))));
    assert!(matches!(settings.get("mpp"), Some(Json::Bool(false))));
    assert_eq!(settings.get("unit").and_then(|u| u.as_str()), Some("sat"));
    assert!(matches!(settings.get("amountless"), Some(Json::Bool(false))));
}

#[test]
fn invoices_are_created_with_the_requested_amount() {
    let amount = |options| {
        PaymentProcessorService::create_payment(CreatePaymentRequest {
            unit: "sat".to_string(),
            options,
        })
    };
    assert_eq!(amount(Some(IncomingOptions::Bolt11 { amount: 5 })), (5, "sat".to_string()));
    assert_eq!(amount(Some(IncomingOptions::Bolt12 { amount: Some(6) })).0, 6);
    assert_eq!(amount(Some(IncomingOptions::Bolt12 { amount: None })).0, 0);
    assert_eq!(amount(None).0, 0);

    let invoice = InvoiceDetails {
        payment_request: "lnbc1".to_string(),
        payment_hash: "abc".to_string(),
        payment_secret: "s".to_string(),
        satoshis: 5,
    };
    let response = PaymentProcessorService::payment_created(Ok(invoice)).expect("created");
    assert_eq!(response.request_identifier, by_hash("abc"));
    assert_eq!(response.request, "lnbc1");
    assert_eq!(response.expiry, None);
    assert_eq!(
        PaymentProcessorService::payment_created(blink_error()).unwrap_err(),
        internal("create invoice failed: boom")
    );
}

fn quote(request: &str, request_type: i32) -> PaymentQuoteRequest {
    PaymentQuoteRequest { request: request.to_string(), unit: "sat".to_string(), request_type }
}

#[test]
fn quotes_round_the_amount_down() {
    let step =
        PaymentProcessorService::get_payment_quote(quote(INVOICE, 0), told("PENDING", "h", ""));
    let Ok(QuoteStep::Done(response)) = step else {
        panic!("expected a quote");
    };
    assert_eq!(response.request_identifier, by_hash("h"));
    assert_eq!(response.amount, 967_878);
    assert_eq!(response.fee, 0);
    assert_eq!(response.state, QuoteState::Unknown);
    assert_eq!(response.unit, "sat");
}

#[test]
fn quotes_are_refused_with_a_reason() {
    let fail = |request, outcome| {
        PaymentProcessorService::get_payment_quote(request, outcome).unwrap_err()
    };
    assert_eq!(
        fail(quote(INVOICE, 0), blink_error()),
        internal("failed to resolve payment hash from invoice: boom")
    );
    assert_eq!(
        fail(quote(AMOUNTLESS, 0), told("PENDING", "h", "")),
        invalid("amountless invoice unsupported")
    );
    assert_eq!(
        fail(quote(INVOICE, 2), told("PENDING", "h", "")),
        invalid("unsupported request type")
    );
    let e = fail(quote("lnbc-no", 0), told("PENDING", "h", ""));
    assert_eq!(e.code, Code::InvalidArgument);
    assert!(e.message.starts_with("invalid bolt11: "));
}

#[test]
fn offers_are_quoted_by_blink() {
    let step =
        PaymentProcessorService::get_payment_quote(quote("lno1", 1), told("PENDING", "h", ""));
    let Ok(QuoteStep::QuoteOffer { offer, unit }) = step else {
        panic!("expected the offer to be quoted");
    };
    assert_eq!((offer.as_str(), unit.as_str()), ("lno1", "sat"));
    let offer = OfferQuote { amount: 12, currency: "USD".to_string() };
    let response = PaymentProcessorService::offer_quoted(unit, Ok(offer)).expect("quote");
    assert_eq!(response.request_identifier, None);
    assert_eq!((response.amount, response.fee), (12, 0));
    assert_eq!(response.unit, "sat");
    assert_eq!(response.state, QuoteState::Unknown);
    assert_eq!(
        PaymentProcessorService::offer_quoted("sat".to_string(), blink_error()).unwrap_err(),
        internal("offer quote failed: boom")
    );
}

#[test]
fn payments_report_their_status() {
    let request = |options| PaymentProcessorService::make_payment(options);
    let narrow = limits(Some(5), Some(30));
    let got = request(Some(OutgoingOptions::Bolt11 { bolt11: "a".to_string(), limits: narrow }));
    assert_eq!((got.request.as_str(), got.limits), ("a", narrow));
    let got = request(Some(OutgoingOptions::Bolt12 { offer: "b".to_string(), limits: narrow }));
    assert_eq!((got.request.as_str(), got.limits), ("b", narrow));
    let got = request(None);
    assert_eq!((got.request.as_str(), got.limits), ("", limits(None, None)));

    assert_eq!(
        service().payment_sent(&payment(INVOICE), blink_error()).unwrap_err(),
        internal("make payment failed: boom")
    );
    for (sent, state) in [
        ("SUCCESS", QuoteState::Paid),
        ("PENDING", QuoteState::Pending),
        ("FAILURE", QuoteState::Failed),
        ("FAILED", QuoteState::Failed),
        ("success", QuoteState::Unknown),
    ] {
        let (sent, request) =
            service().payment_sent(&payment(INVOICE), Ok(sent.to_string())).expect("sent");
        assert_eq!(input(&request, "paymentRequest"), Some(INVOICE));
        let response = PaymentProcessorService::payment_resolved(
            &payment(INVOICE),
            sent.clone(),
            3,
            told("X", "h", ""),
        )
        .expect("resolved");
        assert_eq!(response.payment_identifier, by_hash("h"));
        assert_eq!(response.payment_proof, Some(sent));
        assert_eq!(response.status, state);
        assert_eq!(response.total_spent, 967_881);
        assert_eq!(response.unit, "sat");
    }
}

#[test]
fn what_is_spent_is_the_amount_and_the_fee() {
    let total = |fee| {
        PaymentProcessorService::payment_resolved(
            &payment(INVOICE),
            "SUCCESS".to_string(),
            fee,
            told("X", "h", ""),
        )
        .expect("resolved")
        .total_spent
    };
    assert_eq!(total(0), 967_878);
    assert_eq!(total(1), 967_879);
    assert_eq!(total(u64::MAX), u64::MAX);
}

#[test]
fn fees_above_the_limit_are_refused() {
    let limited = limits(Some(5), None);
    assert!(PaymentProcessorService::fee_probed(limited, Ok(5)).is_ok());
    assert_eq!(
        PaymentProcessorService::fee_probed(limited, Ok(6)).unwrap_err(),
        invalid("routing fee exceeds max_fee_amount")
    );
    assert!(PaymentProcessorService::fee_probed(limited, blink_error()).is_ok());
    assert!(PaymentProcessorService::fee_probed(limits(None, None), Ok(6)).is_ok());
}

#[test]
fn payments_are_refused_with_a_reason() {
    let fail = |bolt11: &str, outcome| {
        PaymentProcessorService::payment_resolved(
            &payment(bolt11),
            "SUCCESS".to_string(),
            0,
            outcome,
        )
        .unwrap_err()
    };
    assert_eq!(
        fail(INVOICE, blink_error()),
        internal("failed to resolve payment hash from invoice: boom")
    );
    assert_eq!(fail(AMOUNTLESS, told("X", "h", "")), invalid("amountless invoice unsupported"));
    assert!(fail("x", told("X", "h", "")).message.starts_with("invalid bolt11: "));
}

#[test]
fn incoming_payments_are_listed_once_paid() {
    let (hash, request) = service().check_incoming_payment(by_hash("h")).expect("hash");
    assert_eq!(hash, "h");
    assert_eq!(input(&request, "paymentHash"), Some("h"));
    let by_id = Identifier {
        kind: IdentifierKind::PaymentId,
        value: Some(IdentifierValue::Id("i".to_string())),
    };
    assert_eq!(
        service().check_incoming_payment(Some(by_id)).unwrap_err(),
        invalid("expected payment hash")
    );
    assert_eq!(
        service().check_incoming_payment(None).unwrap_err(),
        invalid("missing request_identifier")
    );

    let check = |outcome| {
        PaymentProcessorService::incoming_payment_checked("h".to_string(), outcome)
    };
    let payments = check(told("paid", INVOICE, "pre")).expect("checked");
    assert_eq!(payments.len(), 1);
    assert_eq!(payments[0].payment_identifier, by_hash("h"));
    assert_eq!(payments[0].payment_amount, 967_878);
    assert_eq!(payments[0].unit, "sat");
    assert_eq!(payments[0].payment_id, "pre");
    assert_eq!(check(told("PAID", "unreadable", "")).expect("checked")[0].payment_amount, 0);
    assert!(check(told("PENDING", INVOICE, "pre")).expect("checked").is_empty());
    assert_eq!(check(blink_error()).unwrap_err(), internal("query blink failed: boom"));
}

#[test]
fn outgoing_payments_are_found_by_id_or_hash() {
    let id = Identifier {
        kind: IdentifierKind::PaymentId,
        value: Some(IdentifierValue::Id("i".to_string())),
    };
    assert!(matches!(
        service().check_outgoing_payment(Some(id.clone())),
        Ok(OutgoingLookup::ById(i)) if i == "i"
    ));
    assert!(matches!(
        service().check_outgoing_payment(by_hash("h")),
        Ok(OutgoingLookup::ByHash(h, request))
            if h == "h" && input(&request, "paymentHash") == Some("h")
    ));
    let empty = Identifier { kind: IdentifierKind::PaymentId, value: None };
    assert_eq!(
        service().check_outgoing_payment(Some(empty)).unwrap_err(),
        invalid("expected payment id or hash")
    );
    assert_eq!(
        service().check_outgoing_payment(None).unwrap_err(),
        invalid("missing request_identifier")
    );

    let payment = OutgoingPayment { id: "i".to_string(), amount: 3 };
    let response = PaymentProcessorService::outgoing_payment_by_id(Ok(payment)).expect("found");
    assert_eq!(response.payment_identifier, Some(id));
    assert_eq!(response.total_spent, 3);
    assert_eq!(response.status, QuoteState::Unknown);
    assert_eq!(
        PaymentProcessorService::outgoing_payment_by_id(blink_error()).unwrap_err(),
        internal("failed to fetch outgoing payment: boom")
    );

    for (status, state, spent) in [
        ("PAID", QuoteState::Paid, 967_878),
        ("PENDING", QuoteState::Pending, 0),
        ("FAILED", QuoteState::Failed, 0),
        ("EXPIRED", QuoteState::Unknown, 0),
    ] {
        let response = PaymentProcessorService::outgoing_payment_by_hash(
            "h".to_string(),
            told(status, INVOICE, "pre"),
        )
        .expect("found");
        assert_eq!(response.payment_identifier, by_hash("h"));
        assert_eq!(response.payment_proof, None);
        assert_eq!(response.status, state);
        assert_eq!(response.total_spent, spent);
    }
    assert_eq!(
        PaymentProcessorService::outgoing_payment_by_hash("h".to_string(), blink_error())
            .unwrap_err(),
        internal("failed to check payment by hash: boom")
    );
}

#[test]
fn paid_updates_are_forwarded() {
    let update = |body: &str| {
        Json::parse(&format!(
            r#"{{"payload":{{"data":{{"myUpdates":{{"update":{}}}}}}}}}"#,
            body
        ))
        .expect("json")
    };
    let full = update(
        r#"{"status":"paid","preimage":"pre","transaction":{"settlementAmount":42,"initiationVia":{"paymentHash":"h"}}}"#,
    );
    let response = PaymentProcessorService::incoming_update(&full).expect("forwarded");
    assert_eq!(response.payment_identifier, by_hash("h"));
    assert_eq!(response.payment_amount, 42);
    assert_eq!(response.unit, "sat");
    assert_eq!(response.payment_id, "pre");

    let bare = update(r#"{"status":"PAID","transaction":{"initiationVia":{"paymentHash":"h"}}}"#);
    let response = PaymentProcessorService::incoming_update(&bare).expect("forwarded");
    assert_eq!((response.payment_amount, response.payment_id.as_str()), (0, ""));

    for body in [
        r#"{"status":"PENDING","transaction":{"initiationVia":{"paymentHash":"h"}}}"#,
        r#"{"status":"PAID","transaction":{"initiationVia":{"paymentHash":""}}}"#,
        r#"{"status":"PAID"}"#,
    ] {
        assert!(PaymentProcessorService::incoming_update(&update(body)).is_none());
    }
    let none = Json::parse(r#"{"payload":{}}"#).expect("json");
    assert!(PaymentProcessorService::incoming_update(&none).is_none());
}

#[test]
fn the_stream_goes_on_until_the_client_disconnects() {
    let step = |event| PaymentProcessorService::wait_incoming_payment(event);
    let paid = Json::parse(
        r#"{"payload":{"data":{"myUpdates":{"update":{"status":"PAID","transaction":{"settlementAmount":42,"initiationVia":{"paymentHash":"h"}}}}}}}"#,
    )
    .expect("json");
    assert!(matches!(
        step(StreamEvent::Update(paid)),
        StreamAction::Send(response)
            if response.payment_identifier == by_hash("h") && response.payment_amount == 42
    ));
    let other = Json::parse(r#"{"payload":{}}"#).expect("json");
    assert!(matches!(step(StreamEvent::Update(other)), StreamAction::Wait));
    assert!(matches!(step(StreamEvent::Sent), StreamAction::Wait));
    assert!(matches!(step(StreamEvent::ClientClosed), StreamAction::Finish));
    assert!(matches!(step(StreamEvent::UpdatesEnded), StreamAction::Finish));
}

#[test]
fn requests_are_those_of_their_call() {
    let mut cfg = Config::default();
    cfg.backend.wallet_id = "w".to_string();
    let service = PaymentProcessorService::try_new(cfg).expect("service").0;

    let create = CreatePaymentRequest {
        unit: "sat".to_string(),
        options: Some(IncomingOptions::Bolt11 { amount: 5 }),
    };
    let request = sent(service.invoice_request(create, None));
    assert!(query(&request).contains("mutation LnInvoiceCreate"));
    assert_eq!(input(&request, "walletId"), Some("w"));
    assert_eq!(input(&request, "memo"), Some("sat"));

    let request = service.quote_request(&quote("lnbc1", 0));
    assert_eq!(input(&request, "paymentRequest"), Some("lnbc1"));
    let request = sent(service.fee_request(&payment("lnbc1"), None));
    assert!(query(&request).contains("mutation lnInvoiceFeeProbe"));
    assert_eq!(input(&request, "paymentRequest"), Some("lnbc1"));
    let request = sent(service.payment_request(&payment("lnbc1"), None));
    assert!(query(&request).contains("mutation lnInvoicePaymentSend"));
    assert_eq!(input(&request, "paymentRequest"), Some("lnbc1"));
}
