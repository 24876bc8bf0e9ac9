use cdk_blink::blink::rest::{
    BlinkClient, BlinkError, ErrorDetail, Exchange, FeeProbe, GraphqlReply, HttpRequest,
    InvoiceCreation, InvoiceDetails, PaymentSend, RequestStep, Retry, RetryStep, StatusByHash,
    StatusByRequest, Wallet, WalletOperation, WalletStep,
};
use cdk_blink::json::Json;
use cdk_blink::settings::BackendConfig;

fn mk_client(api_key: &str, wallet_id: &str) -> BlinkClient {
    let cfg = BackendConfig {
        api_url: "http://127.0.0.1:8080/graphql".to_string(),
        api_key: api_key.to_string(),
        wallet_id: wallet_id.to_string(),
    };
    BlinkClient::new(&cfg).expect("blink client")
}

fn detail(message: &str) -> ErrorDetail {
    ErrorDetail { message: message.to_string() }
}

fn data<T>(data: T) -> Exchange<T> {
    Exchange::Replied(GraphqlReply { status: 200, data: Some(data), errors: None })
}

fn errors<T>(status: u16, messages: &[&str]) -> Exchange<T> {
    let errors = messages.iter().map(|m| detail(m)).collect();
    Exchange::Replied(GraphqlReply { status, data: None, errors: Some(errors) })
}

fn input<'a>(request: &'a HttpRequest, key: &str) -> Option<&'a Json> {
    request.body.get("variables").and_then(|v| v.get("input")).and_then(|i| i.get(key))
}

fn query(request: &HttpRequest) -> &str {
    request.body.get("query").and_then(|q| q.as_str()).expect("query")
}

#[test]
fn test_gql_success_returns_data() {
    let client = mk_client("secret-key", "wallet-1");
    let request = client.gql_request("query { ok }", Json::Object(Vec::new()));
    assert_eq!(request.url, "http://127.0.0.1:8080/graphql");
    assert_eq!(
        request.headers,
        vec![
            ("Content-Type".to_string(), "application/json".to_string()),
            ("X-API-KEY".to_string(), "secret-key".to_string()),
        ]
    );
    assert_eq!(query(&request), "query { ok }");
    assert!(request.body.get("variables").is_some());

    let out = BlinkClient::gql(data(true)).expect("gql ok");
    assert!(out, "should parse and return data.ok=true");
}

#[test]
fn test_gql_http_non_200_is_error() {
    let res: Result<bool, BlinkError> = BlinkClient::gql(errors(500, &["boom"]));
    assert!(res.is_err(), "non-200 with no data should map to error");
    assert!(res.unwrap_err().message().contains("boom"));
}

#[test]
fn test_gql_graphql_errors_field_is_error() {
    let res: Result<bool, BlinkError> = BlinkClient::gql(errors(200, &["boom"]));
    assert!(res.is_err(), "GraphQL errors without data should be an error");
    assert!(res.unwrap_err().message().contains("boom"));
}

#[test]
fn test_create_invoice_success_and_shape() {
    let client = mk_client("key", "wallet-123");
    let request = client.create_invoice_request("wallet-123", 4242, "hello");
    assert!(query(&request).contains("mutation LnInvoiceCreate"));
    assert_eq!(input(&request, "walletId").and_then(|j| j.as_str()), Some("wallet-123"));
    assert_eq!(input(&request, "amount").and_then(|j| j.as_i64()), Some(4242));
    assert_eq!(input(&request, "memo").and_then(|j| j.as_str()), Some("hello"));

    let invoice = InvoiceDetails {
        payment_request: "lnbc1...".to_string(),
        payment_hash: "abc123".to_string(),
        payment_secret: "s3cr3t".to_string(),
        satoshis: 4242,
    };
    let reply = InvoiceCreation { invoice: Some(invoice), errors: Some(Vec::new()) };
    let inv = BlinkClient::create_invoice(data(reply)).expect("invoice");
    assert_eq!(inv.payment_request, "lnbc1...");
    assert_eq!(inv.payment_hash, "abc123");
    assert_eq!(inv.payment_secret, "s3cr3t");
    assert_eq!(inv.satoshis, 4242);
}

#[test]
fn test_create_invoice_mutation_errors_are_returned() {
    let reply = InvoiceCreation { invoice: None, errors: Some(vec![detail("amount too small")]) };
    let res = BlinkClient::create_invoice(data(reply));
    assert!(res.is_err());
    assert!(res.unwrap_err().message().contains("amount too small"));
}

#[test]
fn test_probe_fee_success() {
    let client = mk_client("key", "wallet-xyz");
    let request = client.probe_fee_request("wallet-xyz", "lnbc1test");
    assert!(query(&request).contains("mutation lnInvoiceFeeProbe"));
    assert_eq!(input(&request, "paymentRequest").and_then(|j| j.as_str()), Some("lnbc1test"));

    let reply = FeeProbe { amount: Some(3), errors: Some(Vec::new()) };
    let fee = BlinkClient::probe_fee(data(reply)).expect("fee");
    assert_eq!(fee, 3);
}

#[test]
fn test_make_payment_success_and_error_mapping() {
    let client = mk_client("key", "wallet-xyz");
    let request = client.make_payment_request("wallet-xyz", "bolt11-xxx");
    assert!(query(&request).contains("mutation lnInvoicePaymentSend"));
    assert_eq!(input(&request, "paymentRequest").and_then(|j| j.as_str()), Some("bolt11-xxx"));
    assert_eq!(input(&request, "memo").and_then(|j| j.as_str()), Some(""));

    let reply = PaymentSend { status: "SUCCESS".to_string(), errors: Some(Vec::new()) };
    let status = BlinkClient::make_payment(data(reply)).expect("payment ok");
    assert_eq!(status, "SUCCESS");

    let res = BlinkClient::make_payment(errors(200, &["payment failed"]));
    assert!(res.is_err(), "GraphQL errors without data should yield error");
}

#[test]
fn test_check_invoice_status_variants() {
    let client = mk_client("k", "w");
    for (hash, status, preimage, request, expected) in [
        ("hash-paid", "PAID", Some("pre"), "req-paid", "pre"),
        ("hash-pending", "PENDING", None, "req-pending", ""),
        ("hash-expired", "EXPIRED", None, "req-expired", ""),
    ] {
        let asked = client.status_by_hash_request(hash);
        assert_eq!(input(&asked, "paymentHash").and_then(|j| j.as_str()), Some(hash));
        let reply = StatusByHash {
            status: status.to_string(),
            payment_preimage: preimage.map(|p| p.to_string()),
            payment_request: request.to_string(),
        };
        let (got, req, pre) =
            BlinkClient::check_invoice_status_by_hash(data(reply)).expect("status");
        assert_eq!(got, status);
        assert_eq!(req, request);
        assert_eq!(pre, expected);
    }
}

#[test]
fn test_check_invoice_status_with_retry_respects_backoff() {
    let client = mk_client("k", "w");
    let mut retry = Retry::new();
    let mut requests = 0;
    let answer = loop {
        let asked = client.status_by_hash_request("any-hash");
        assert_eq!(input(&asked, "paymentHash").and_then(|j| j.as_str()), Some("any-hash"));
        requests += 1;
        let exchange = if requests <= 2 {
            errors(500, &[format!("fail {}", requests).as_str()])
        } else {
            data(StatusByHash {
                status: "PAID".to_string(),
                payment_preimage: Some("pre".to_string()),
                payment_request: "req".to_string(),
            })
        };
        let outcome = BlinkClient::check_invoice_status_by_hash(exchange);
        match BlinkClient::check_invoice_status_with_retry(&mut retry, outcome) {
            RetryStep::Done(answer) => break answer,
            RetryStep::RetryAfter(delay) => assert_eq!(delay, 1000 * requests),
            RetryStep::GiveUp(_) => panic!("eventual success"),
        }
    };
    assert_eq!(answer.1, "req");
    assert_eq!(answer.2, "pre");
    assert_eq!(requests, 3, "should have performed 3 total requests (2 fails + 1 success)");
}

#[test]
fn retries_end_with_the_fourth_failure() {
    let mut retry = Retry::new();
    let mut delays = Vec::new();
    loop {
        let failed: Result<(), BlinkError> = Err(BlinkError::MissingData);
        match BlinkClient::check_invoice_status_with_retry(&mut retry, failed) {
            RetryStep::Done(()) => panic!("no answer"),
            RetryStep::RetryAfter(delay) => delays.push(delay),
            RetryStep::GiveUp(e) => {
                assert_eq!(e.message(), "missing data");
                break;
            }
        }
    }
    assert_eq!(delays, vec![1000, 2000, 4000]);
}

#[test]
fn data_outweighs_errors() {
    let reply = GraphqlReply { status: 200, data: Some(1), errors: Some(vec![detail("partly")]) };
    assert_eq!(BlinkClient::gql(Exchange::Replied(reply)).expect("data"), 1);
}

#[test]
fn the_http_status_does_not_matter() {
    let reply = GraphqlReply { status: 500, data: Some(1), errors: None };
    assert_eq!(BlinkClient::gql(Exchange::Replied(reply)).expect("data"), 1);
}

#[test]
fn failures_have_their_messages() {
    let message = |exchange: Exchange<bool>| BlinkClient::gql(exchange).unwrap_err().message();
    assert_eq!(message(errors(200, &["a", "b"])), "a; b");
    assert_eq!(message(errors(200, &[])), "missing data");
    assert_eq!(message(errors(200, &[""])), "missing data");
    assert_eq!(
        message(Exchange::Replied(GraphqlReply { status: 200, data: None, errors: None })),
        "missing data"
    );
    assert_eq!(message(Exchange::Failed("no network".to_string())), "no network");
    assert_eq!(
        message(Exchange::Undecodable("<html>".to_string())),
        "decode gql response: <html>"
    );
}

#[test]
fn incomplete_replies_are_errors() {
    let none = InvoiceCreation { invoice: None, errors: None };
    assert_eq!(
        BlinkClient::create_invoice(data(none)).unwrap_err().message(),
        "invoice not present"
    );
    let none = FeeProbe { amount: None, errors: None };
    assert_eq!(
        BlinkClient::probe_fee(data(none)).unwrap_err().message(),
        "fee probe amount not present"
    );
    let negative = FeeProbe { amount: Some(-4), errors: None };
    assert_eq!(BlinkClient::probe_fee(data(negative)).expect("fee"), 0);
    let refused = FeeProbe { amount: Some(4), errors: Some(vec![detail("no"), detail("way")]) };
    assert_eq!(BlinkClient::probe_fee(data(refused)).unwrap_err().message(), "no; way");
    let refused = PaymentSend { status: "FAILURE".to_string(), errors: Some(vec![detail("x")]) };
    assert_eq!(BlinkClient::make_payment(data(refused)).unwrap_err().message(), "x");
}

#[test]
fn status_by_request_is_read() {
    let client = mk_client("k", "w");
    let asked = client.status_by_request_request("lnbc1");
    assert!(query(&asked).contains("lnInvoicePaymentStatusByPaymentRequest(input: $input)"));
    assert_eq!(input(&asked, "paymentRequest").and_then(|j| j.as_str()), Some("lnbc1"));
    let reply = StatusByRequest {
        status: "PAID".to_string(),
        payment_hash: "h".to_string(),
        payment_preimage: None,
    };
    let answer = BlinkClient::check_invoice_status_by_request(data(reply)).expect("status");
    assert_eq!(answer, ("PAID".to_string(), "h".to_string(), String::new()));
}

#[test]
fn the_btc_wallet_is_the_default() {
    let wallet = |id: &str, currency: &str| Wallet {
        id: id.to_string(),
        wallet_currency: currency.to_string(),
        balance: 0,
    };
    let pick = |wallets: Vec<Wallet>| BlinkClient::get_default_wallet(data(wallets));
    assert_eq!(pick(vec![wallet("a", "USD"), wallet("b", "BTC")]).expect("wallet").id, "b");
    assert_eq!(pick(vec![wallet("a", "USD"), wallet("b", "EUR")]).expect("wallet").id, "a");
    assert_eq!(pick(Vec::new()).unwrap_err().message(), "no wallet found");
}

#[test]
fn a_missing_wallet_is_asked_for() {
    assert!(matches!(mk_client("k", "w").resolve_wallet_id(), WalletStep::Use(id) if id == "w"));
    let mut client = mk_client("k", "");
    let WalletStep::Query(request) = client.resolve_wallet_id() else {
        panic!("expected a query");
    };
    assert!(query(&request).contains("defaultAccount { wallets { id walletCurrency balance } }"));
    client.set_wallet_id("w2".to_string());
    assert!(matches!(client.resolve_wallet_id(), WalletStep::Use(id) if id == "w2"));
}

#[test]
fn operations_are_made_in_the_right_wallet() {
    let operation = || WalletOperation::MakePayment { bolt11: "lnbc1" };
    let wallet_of = |step| match step {
        Ok(RequestStep::Send(request)) => {
            input(&request, "walletId").and_then(|w| w.as_str()).expect("wallet").to_string()
        }
        other => panic!("{:?}", other),
    };
    assert_eq!(wallet_of(mk_client("k", "w").wallet_request(operation(), None)), "w");

    let client = mk_client("k", "");
    assert!(matches!(
        client.wallet_request(operation(), None),
        Ok(RequestStep::Query(request)) if query(&request).contains("defaultAccount")
    ));
    let wallet = |id: &str, currency: &str| Wallet {
        id: id.to_string(),
        wallet_currency: currency.to_string(),
        balance: 0,
    };
    let wallets = data(vec![wallet("a", "USD"), wallet("b", "BTC")]);
    assert_eq!(wallet_of(client.wallet_request(operation(), Some(wallets))), "b");
    assert!(matches!(
        client.wallet_request(operation(), Some(data(Vec::new()))),
        Err(BlinkError::NoWallet)
    ));
    assert!(matches!(
        client.wallet_request(operation(), Some(Exchange::Failed("down".to_string()))),
        Err(BlinkError::Transport(_))
    ));
}

#[test]
fn endpoints_are_normalised() {
    let cfg = BackendConfig {
        api_url: "HTTPS://Api.Blink.sv:443/a/../graphql".to_string(),
        api_key: "k".to_string(),
        wallet_id: "w".to_string(),
    };
    let client = BlinkClient::new(&cfg).expect("client");
    assert_eq!(client.api_url(), "https://api.blink.sv/graphql");
    assert_eq!(client.api_key_str(), "k");
    let bad = BackendConfig { api_url: "::".to_string(), ..cfg };
    assert!(matches!(BlinkClient::new(&bad), Err(BlinkError::InvalidUrl(_))));
}
