//! What holds of the requests to Blink's GraphQL API, and of its replies.

use vstd::arithmetic::power2::{lemma2_to64, pow2};
use vstd::prelude::*;

use crate::backoff::delays_double_up_to_cap;
use crate::blink::rest::{
    after_failures, asks_in_wallet, create_invoice_view, failures_are_retried_with_backoff,
    gql_request_view, initial_backoff, input_variables, is_default_wallet, join_messages,
    make_payment_view, max_backoff, messages, operation_view, probe_fee_view, status_by_hash_view,
    status_by_request_view, wallets_request_view, BlinkClient, BlinkClientView, BlinkError,
    ErrorDetail, Exchange, FeeProbe, GraphqlReply, HttpRequest, HttpRequestView, InvoiceCreation,
    InvoiceDetails, PaymentSend, RequestStep, Retry, RetryStep, StatusByHash, StatusByRequest,
    Wallet, WalletOperation, WalletStep,
};
use crate::json::{Json, JsonView};
use crate::laws::json::{first_entry_is_found, integers_make_their_number};
use crate::laws::text::parts_are_joined_in_order;
use crate::settings::BackendConfig;
use crate::text::{all_digits, digits_value, joined};

verus! {

// ---------------------------------------------------------------------------
// Requests
// ---------------------------------------------------------------------------

/// The query that a request carries.
pub open spec fn query_of(request: HttpRequestView) -> Option<Seq<char>> {
    match request.body.field("query"@) {
        Some(JsonView::Str(query)) => Some(query),
        _ => None,
    }
}

/// The input object of a request, which is its only variable.
pub open spec fn input_of(request: HttpRequestView) -> Option<JsonView> {
    match request.body.field("variables"@) {
        Some(JsonView::Object(variables)) => if variables.len() == 1 && variables[0].0
            == "input"@ {
            Some(variables[0].1)
        } else {
            None
        },
        _ => None,
    }
}

/// What a request says under a key of its input.
pub open spec fn said(request: HttpRequestView, key: Seq<char>) -> Option<JsonView> {
    match input_of(request) {
        Some(input) => input.field(key),
        None => None,
    }
}

/// How many entries the input of a request has.
pub open spec fn said_in_all(request: HttpRequestView) -> nat {
    match input_of(request) {
        Some(JsonView::Object(entries)) => entries.len(),
        _ => 0,
    }
}

/// Whether a request goes to the client's endpoint and is authenticated with its
/// key: it has these two headers and no others, and a body of two entries.
pub open spec fn is_authenticated(request: HttpRequestView, client: BlinkClientView) -> bool {
    &&& request.url == client.base_url
    &&& request.body matches JsonView::Object(entries) && entries.len() == 2
    &&& request.headers.len() == 2
    &&& request.headers.contains(("Content-Type"@, "application/json"@))
    &&& request.headers.contains(("X-API-KEY"@, client.api_key))
}

/// Whether a JSON value is the given integer.
pub open spec fn is_integer(json: JsonView, n: u64) -> bool {
    json matches JsonView::Number(number) && number.unsigned == Some(n) && (n <= i64::MAX ==> (
    number.signed matches Some(i) && i == n)) && all_digits(number.text) && digits_value(
        number.text,
    ) == n
}

/// Whether a request asks for the wallets of the account.
pub open spec fn asks_for_wallets(request: HttpRequestView, client: BlinkClientView) -> bool {
    &&& is_authenticated(request, client)
    &&& query_of(request) == Some(
        r#"
        query me { me { defaultAccount { wallets { id walletCurrency balance } } } }
        "#@,
    )
    &&& request.body.field("variables"@) == Some(JsonView::Object(Seq::empty()))
}

/// Whether a request creates an invoice of the amount, with the memo, in the
/// wallet.
pub open spec fn creates_invoice(
    request: HttpRequestView,
    client: BlinkClientView,
    wallet_id: Seq<char>,
    amount: u64,
    memo: Seq<char>,
) -> bool {
    &&& is_authenticated(request, client)
    &&& query_of(request) == Some(
        r#"
        mutation LnInvoiceCreate($input: LnInvoiceCreateInput!) {
          lnInvoiceCreate(input: $input) {
            invoice { paymentRequest paymentHash paymentSecret satoshis }
            errors { message }
          }
        }
        "#@,
    )
    &&& said_in_all(request) == 3
    &&& said(request, "walletId"@) == Some(JsonView::Str(wallet_id))
    &&& said(request, "amount"@) matches Some(n) && is_integer(n, amount)
    &&& said(request, "memo"@) == Some(JsonView::Str(memo))
}

/// Whether a request probes the fee of paying the invoice from the wallet.
pub open spec fn probes_fee(
    request: HttpRequestView,
    client: BlinkClientView,
    wallet_id: Seq<char>,
    bolt11: Seq<char>,
) -> bool {
    &&& is_authenticated(request, client)
    &&& query_of(request) == Some(
        r#"
        mutation lnInvoiceFeeProbe($input: LnInvoiceFeeProbeInput!) {
          lnInvoiceFeeProbe(input: $input) { amount errors { message } }
        }
        "#@,
    )
    &&& said_in_all(request) == 2
    &&& said(request, "walletId"@) == Some(JsonView::Str(wallet_id))
    &&& said(request, "paymentRequest"@) == Some(JsonView::Str(bolt11))
}

/// Whether a request pays the invoice from the wallet, without a memo.
pub open spec fn pays_invoice(
    request: HttpRequestView,
    client: BlinkClientView,
    wallet_id: Seq<char>,
    bolt11: Seq<char>,
) -> bool {
    &&& is_authenticated(request, client)
    &&& query_of(request) == Some(
        r#"
        mutation lnInvoicePaymentSend($input: LnInvoicePaymentInput!) {
          lnInvoicePaymentSend(input:$input) { status errors { message } }
        }
        "#@,
    )
    &&& said_in_all(request) == 3
    &&& said(request, "walletId"@) == Some(JsonView::Str(wallet_id))
    &&& said(request, "paymentRequest"@) == Some(JsonView::Str(bolt11))
    &&& said(request, "memo"@) == Some(JsonView::Str(""@))
}

/// Whether a request asks for the status of the payment of an invoice.
pub open spec fn asks_by_request(
    request: HttpRequestView,
    client: BlinkClientView,
    payment_request: Seq<char>,
) -> bool {
    &&& is_authenticated(request, client)
    &&& query_of(request) == Some(
        r#"
        query LnInvoicePaymentStatusByPaymentRequest($input: LnInvoicePaymentStatusByPaymentRequestInput!) {
            lnInvoicePaymentStatusByPaymentRequest(input: $input) {
                status
                paymentHash
                paymentPreimage
            }
        }
        "#@,
    )
    &&& said_in_all(request) == 1
    &&& said(request, "paymentRequest"@) == Some(JsonView::Str(payment_request))
}

/// Whether a request asks for the status of the payment with a hash.
pub open spec fn asks_by_hash(
    request: HttpRequestView,
    client: BlinkClientView,
    payment_hash: Seq<char>,
) -> bool {
    &&& is_authenticated(request, client)
    &&& query_of(request) == Some(
        r#"
        query ($input: LnInvoicePaymentStatusByHashInput!) {
          lnInvoicePaymentStatusByHash(input: $input) {
            status paymentPreimage paymentRequest
          }
        }
        "#@,
    )
    &&& said_in_all(request) == 1
    &&& said(request, "paymentHash"@) == Some(JsonView::Str(payment_hash))
}

/// Every request goes to the endpoint of the client, is authenticated with its key,
/// and carries the query and the variables that it is made for.
pub proof fn every_request_is_authenticated(
    client: BlinkClient,
    query: &str,
    variables: Json,
    r: HttpRequest,
)
    requires
        call_ensures(BlinkClient::gql_request, (&client, query, variables), r),
    ensures
        is_authenticated(r@, client@),
        query_of(r@) == Some(query@),
        r@.body.field("variables"@) == Some(variables@),
{
    request_is_made_of_its_parts(r@, client@, query@, variables@);
}

/// A request holds the query and the variables that it is made of.
proof fn request_is_made_of_its_parts(
    request: HttpRequestView,
    client: BlinkClientView,
    query: Seq<char>,
    variables: JsonView,
)
    requires
        request == gql_request_view(client, query, variables),
    ensures
        is_authenticated(request, client),
        query_of(request) == Some(query),
        request.body.field("variables"@) == Some(variables),
{
    reveal_strlit("query");
    reveal_strlit("variables");
    let entries = request.body->Object_0;
    assert("query"@.len() != "variables"@.len());
    first_entry_is_found(entries, 0, "query"@);
    first_entry_is_found(entries, 1, "variables"@);
    assert(request.headers[0] == ("Content-Type"@, "application/json"@));
    assert(request.headers[1] == ("X-API-KEY"@, client.api_key));
}

/// What stands in the input is what the request says.
proof fn input_is_said(
    request: HttpRequestView,
    client: BlinkClientView,
    query: Seq<char>,
    input: Seq<(Seq<char>, JsonView)>,
    i: int,
)
    requires
        request == gql_request_view(client, query, input_variables(input)),
        0 <= i < input.len(),
        forall|j: int| 0 <= j < i ==> (#[trigger] input[j]).0 != input[i].0,
    ensures
        is_authenticated(request, client),
        query_of(request) == Some(query),
        said_in_all(request) == input.len(),
        said(request, input[i].0) == Some(input[i].1),
{
    request_is_made_of_its_parts(request, client, query, input_variables(input));
    first_entry_is_found(input, i, input[i].0);
}

/// What the request for the wallets holds.
pub proof fn wallets_view_asks(client: BlinkClientView)
    ensures
        asks_for_wallets(wallets_request_view(client), client),
{
    let request = wallets_request_view(client);
    request_is_made_of_its_parts(
        request,
        client,
        crate::blink::rest::WALLETS_QUERY@,
        JsonView::Object(Seq::empty()),
    );
}

/// What the request for an invoice holds.
pub proof fn invoice_view_creates(
    client: BlinkClientView,
    wallet_id: Seq<char>,
    amount: u64,
    memo: Seq<char>,
)
    ensures
        creates_invoice(
            create_invoice_view(client, wallet_id, amount, memo),
            client,
            wallet_id,
            amount,
            memo,
        ),
{
    reveal_strlit("walletId");
    reveal_strlit("amount");
    reveal_strlit("memo");
    assert("walletId"@.len() == 8 && "amount"@.len() == 6 && "memo"@.len() == 4);
    let request = create_invoice_view(client, wallet_id, amount, memo);
    let query = crate::blink::rest::CREATE_INVOICE_QUERY@;
    let input = request.body->Object_0[1].1->Object_0[0].1->Object_0;
    input_is_said(request, client, query, input, 0);
    input_is_said(request, client, query, input, 1);
    input_is_said(request, client, query, input, 2);
    integers_make_their_number(amount);
}

/// What the request for a fee probe holds.
pub proof fn probe_view_probes(client: BlinkClientView, wallet_id: Seq<char>, bolt11: Seq<char>)
    ensures
        probes_fee(probe_fee_view(client, wallet_id, bolt11), client, wallet_id, bolt11),
{
    reveal_strlit("walletId");
    reveal_strlit("paymentRequest");
    assert("walletId"@.len() == 8 && "paymentRequest"@.len() == 14);
    let request = probe_fee_view(client, wallet_id, bolt11);
    let query = crate::blink::rest::FEE_PROBE_QUERY@;
    let input = request.body->Object_0[1].1->Object_0[0].1->Object_0;
    input_is_said(request, client, query, input, 0);
    input_is_said(request, client, query, input, 1);
}

/// What the request for a payment holds.
pub proof fn payment_view_pays(client: BlinkClientView, wallet_id: Seq<char>, bolt11: Seq<char>)
    ensures
        pays_invoice(make_payment_view(client, wallet_id, bolt11), client, wallet_id, bolt11),
{
    reveal_strlit("walletId");
    reveal_strlit("paymentRequest");
    reveal_strlit("memo");
    assert("walletId"@.len() == 8 && "paymentRequest"@.len() == 14 && "memo"@.len() == 4);
    let request = make_payment_view(client, wallet_id, bolt11);
    let query = crate::blink::rest::PAYMENT_SEND_QUERY@;
    let input = request.body->Object_0[1].1->Object_0[0].1->Object_0;
    input_is_said(request, client, query, input, 0);
    input_is_said(request, client, query, input, 1);
    input_is_said(request, client, query, input, 2);
}

/// What the request for a status by payment request holds.
pub proof fn status_view_asks_by_request(client: BlinkClientView, payment_request: Seq<char>)
    ensures
        asks_by_request(status_by_request_view(client, payment_request), client, payment_request),
{
    let request = status_by_request_view(client, payment_request);
    let query = crate::blink::rest::STATUS_BY_REQUEST_QUERY@;
    let input = request.body->Object_0[1].1->Object_0[0].1->Object_0;
    input_is_said(request, client, query, input, 0);
}

/// What the request for a status by payment hash holds.
pub proof fn status_view_asks_by_hash(client: BlinkClientView, payment_hash: Seq<char>)
    ensures
        asks_by_hash(status_by_hash_view(client, payment_hash), client, payment_hash),
{
    let request = status_by_hash_view(client, payment_hash);
    let query = crate::blink::rest::STATUS_BY_HASH_QUERY@;
    let input = request.body->Object_0[1].1->Object_0[0].1->Object_0;
    input_is_said(request, client, query, input, 0);
}

/// The request for an invoice names the wallet, the amount in satoshis, unchanged,
/// and the memo.
pub proof fn invoice_is_asked_for_its_amount(
    client: BlinkClient,
    wallet_id: &str,
    amount: u64,
    memo: &str,
    r: HttpRequest,
)
    requires
        call_ensures(BlinkClient::create_invoice_request, (&client, wallet_id, amount, memo), r),
    ensures
        creates_invoice(r@, client@, wallet_id@, amount, memo@),
{
    invoice_view_creates(client@, wallet_id@, amount, memo@);
}

/// The request for a fee probe names the wallet and the invoice.
pub proof fn fee_is_probed_from_the_wallet(
    client: BlinkClient,
    wallet_id: &str,
    bolt11: &str,
    r: HttpRequest,
)
    requires
        call_ensures(BlinkClient::probe_fee_request, (&client, wallet_id, bolt11), r),
    ensures
        probes_fee(r@, client@, wallet_id@, bolt11@),
{
    probe_view_probes(client@, wallet_id@, bolt11@);
}

/// The request for a payment names the wallet and the invoice.
pub proof fn invoice_is_paid_from_the_wallet(
    client: BlinkClient,
    wallet_id: &str,
    bolt11: &str,
    r: HttpRequest,
)
    requires
        call_ensures(BlinkClient::make_payment_request, (&client, wallet_id, bolt11), r),
    ensures
        pays_invoice(r@, client@, wallet_id@, bolt11@),
{
    payment_view_pays(client@, wallet_id@, bolt11@);
}

/// The requests for a status name the payment that they ask for.
pub proof fn status_is_asked_for_the_payment(
    client: BlinkClient,
    payment: &str,
    by_request: HttpRequest,
    by_hash: HttpRequest,
    wallets: HttpRequest,
)
    requires
        call_ensures(BlinkClient::status_by_request_request, (&client, payment), by_request),
        call_ensures(BlinkClient::status_by_hash_request, (&client, payment), by_hash),
        call_ensures(BlinkClient::wallets_request, (&client,), wallets),
    ensures
        asks_by_request(by_request@, client@, payment@),
        asks_by_hash(by_hash@, client@, payment@),
        asks_for_wallets(wallets@, client@),
{
    status_view_asks_by_request(client@, payment@);
    status_view_asks_by_hash(client@, payment@);
    wallets_view_asks(client@);
}

/// A client asks at the endpoint, with the key and in the wallet that it was
/// configured with.
pub proof fn clients_use_their_configuration(
    cfg: BackendConfig,
    url: String,
    r: Result<BlinkClient, BlinkError>,
    client: BlinkClient,
    query: &str,
    variables: Json,
    request: HttpRequest,
    api_url: &str,
    api_key: &str,
)
    requires
        call_ensures(BlinkClient::at_url, (Ok::<String, String>(url), &cfg), r),
        r == Ok::<BlinkClient, BlinkError>(client),
        call_ensures(BlinkClient::gql_request, (&client, query, variables), request),
        call_ensures(BlinkClient::api_url, (&client,), api_url),
        call_ensures(BlinkClient::api_key_str, (&client,), api_key),
    ensures
        request@.url == url@,
        request@.headers.contains(("X-API-KEY"@, cfg.api_key@)),
        client@.wallet_id == cfg.wallet_id@,
        api_url@ == url@,
        api_key@ == cfg.api_key@,
{
    every_request_is_authenticated(client, query, variables, request);
}

/// A client is made for every endpoint that is a URL, and for no other.
pub proof fn clients_need_a_url(
    cfg: BackendConfig,
    url: Result<String, String>,
    r: Result<BlinkClient, BlinkError>,
)
    requires
        call_ensures(BlinkClient::at_url, (url, &cfg), r),
    ensures
        r is Ok <==> url is Ok,
        r matches Err(e) ==> (url matches Err(reason) && e@.text() == reason@),
{
}

// ---------------------------------------------------------------------------
// Wallets
// ---------------------------------------------------------------------------

/// Whether a wallet is the one that is taken from an account: its first BTC wallet,
/// or its first wallet if it has none in BTC.
pub open spec fn is_wallet_of_account(wallets: Seq<Wallet>, id: Seq<char>) -> bool {
    exists|i: int|
        {
            &&& 0 <= i < wallets.len()
            &&& (#[trigger] wallets[i]).id@ == id
            &&& if exists|k: int|
                0 <= k < wallets.len() && (#[trigger] wallets[k]).wallet_currency@ == "BTC"@ {
                wallets[i].wallet_currency@ == "BTC"@ && forall|k: int|
                    0 <= k < i ==> (#[trigger] wallets[k]).wallet_currency@ != "BTC"@
            } else {
                i == 0
            }
        }
}

/// The default wallet is the first BTC wallet, or the first wallet.
pub proof fn default_wallet_is_that_of_the_account(wallets: Seq<Wallet>, i: int)
    requires
        is_default_wallet(wallets, i),
    ensures
        is_wallet_of_account(wallets, wallets[i].id@),
{
    if exists|k: int| 0 <= k < wallets.len() && (#[trigger] wallets[k]).wallet_currency@ == "BTC"@ {
        let k = choose|k: int|
            0 <= k < wallets.len() && (#[trigger] wallets[k]).wallet_currency@ == "BTC"@;
        assert(crate::blink::rest::is_btc(wallets[k]));
        assert forall|j: int| 0 <= j < i implies (#[trigger] wallets[j]).wallet_currency@
            != "BTC"@ by {
            assert(!crate::blink::rest::is_btc(wallets[j]));
        }
    } else {
        if crate::blink::rest::has_btc_wallet(wallets) {
            let k = choose|k: int|
                0 <= k < wallets.len() && crate::blink::rest::is_btc(#[trigger] wallets[k]);
            assert(wallets[k].wallet_currency@ == "BTC"@);
        }
    }
}

/// The wallet that is taken from a reply is the first BTC wallet of the account, or
/// its first wallet; an account without wallets has none.
pub proof fn btc_wallet_is_preferred(
    status: u16,
    wallets: Vec<Wallet>,
    errors: Option<Vec<ErrorDetail>>,
    r: Result<Wallet, BlinkError>,
)
    requires
        call_ensures(
            BlinkClient::get_default_wallet,
            (Exchange::Replied(GraphqlReply { status, data: Some(wallets), errors }),),
            r,
        ),
    ensures
        wallets@.len() > 0 ==> (r matches Ok(wallet) && wallets@.contains(wallet)
            && is_wallet_of_account(wallets@, wallet.id@)),
        wallets@.len() == 0 ==> (r matches Err(e) && e@.text() == "no wallet found"@),
{
    if wallets@.len() > 0 {
        let wallet = r->Ok_0;
        let i = choose|i: int| #[trigger] is_default_wallet(wallets@, i) && wallet == wallets@[i];
        default_wallet_is_that_of_the_account(wallets@, i);
    }
}

/// The configured wallet is used if there is one; the account is asked otherwise.
pub proof fn configured_wallet_is_used(client: BlinkClient, r: WalletStep)
    requires
        call_ensures(BlinkClient::resolve_wallet_id, (&client,), r),
    ensures
        client@.wallet_id.len() > 0 ==> (r matches WalletStep::Use(id) && id@ == client@.wallet_id),
        client@.wallet_id.len() == 0 ==> (r matches WalletStep::Query(request) && asks_for_wallets(
            request@,
            client@,
        )),
{
    wallets_view_asks(client@);
}

/// Whether a request makes an operation in a wallet.
pub open spec fn makes(
    request: HttpRequestView,
    client: BlinkClientView,
    wallet_id: Seq<char>,
    operation: WalletOperation,
) -> bool {
    match operation {
        WalletOperation::CreateInvoice { amount, memo } => creates_invoice(
            request,
            client,
            wallet_id,
            amount,
            memo@,
        ),
        WalletOperation::ProbeFee { bolt11 } => probes_fee(request, client, wallet_id, bolt11@),
        WalletOperation::MakePayment { bolt11 } => pays_invoice(
            request,
            client,
            wallet_id,
            bolt11@,
        ),
    }
}

/// Whether a step makes an operation in the right wallet: the configured one; else
/// that of the account, which is asked for first.
pub open spec fn makes_in_right_wallet(
    r: Result<RequestStep, BlinkError>,
    client: BlinkClientView,
    operation: WalletOperation,
    wallets: Option<Exchange<Vec<Wallet>>>,
) -> bool {
    &&& client.wallet_id.len() > 0 ==> (r matches Ok(RequestStep::Send(request)) && makes(
        request@,
        client,
        client.wallet_id,
        operation,
    ))
    &&& client.wallet_id.len() == 0 && wallets is None ==> (r matches Ok(
        RequestStep::Query(request),
    ) && asks_for_wallets(request@, client))
    &&& client.wallet_id.len() == 0 ==> (wallets matches Some(Exchange::Replied(reply)) ==> (
    reply.data matches Some(list) ==> if list@.len() > 0 {
        r matches Ok(RequestStep::Send(request)) && exists|id: Seq<char>| #[trigger]
            is_wallet_of_account(list@, id) && makes(request@, client, id, operation)
    } else {
        r matches Err(e) && e@.text() == "no wallet found"@
    }))
    &&& client.wallet_id.len() == 0 ==> (wallets matches Some(exchange) ==> ((
    exchange matches Exchange::Replied(reply) ==> reply.data is None) ==> r is Err))
}

/// What a request for an operation holds.
pub proof fn operation_view_makes(
    client: BlinkClientView,
    wallet_id: Seq<char>,
    operation: WalletOperation,
)
    ensures
        makes(operation_view(client, wallet_id, operation@), client, wallet_id, operation),
{
    match operation {
        WalletOperation::CreateInvoice { amount, memo } => {
            invoice_view_creates(client, wallet_id, amount, memo@);
        },
        WalletOperation::ProbeFee { bolt11 } => {
            probe_view_probes(client, wallet_id, bolt11@);
        },
        WalletOperation::MakePayment { bolt11 } => {
            payment_view_pays(client, wallet_id, bolt11@);
        },
    }
}

/// The request that comes out for an operation makes it in the right wallet.
pub proof fn right_wallet(
    r: Result<RequestStep, BlinkError>,
    client: BlinkClientView,
    operation: WalletOperation,
    wallets: Option<Exchange<Vec<Wallet>>>,
)
    requires
        asks_in_wallet(r, client, operation@, wallets),
    ensures
        makes_in_right_wallet(r, client, operation, wallets),
{
    wallets_view_asks(client);
    if client.wallet_id.len() > 0 {
        operation_view_makes(client, client.wallet_id, operation);
    } else if let Some(Exchange::Replied(reply)) = wallets {
        if let Some(list) = reply.data {
            if list@.len() > 0 {
                let request = r->Ok_0->Send_0;
                let i = choose|i: int| #[trigger]
                    is_default_wallet(list@, i) && request@ == operation_view(
                        client,
                        list@[i].id@,
                        operation@,
                    );
                default_wallet_is_that_of_the_account(list@, i);
                operation_view_makes(client, list@[i].id@, operation);
            }
        }
    }
}

/// Every operation is made in the configured wallet, or else in that of the
/// account.
pub proof fn operations_are_made_in_the_right_wallet(
    client: BlinkClient,
    operation: WalletOperation,
    wallets: Option<Exchange<Vec<Wallet>>>,
    r: Result<RequestStep, BlinkError>,
)
    requires
        call_ensures(BlinkClient::wallet_request, (&client, operation, wallets), r),
    ensures
        makes_in_right_wallet(r, client@, operation, wallets),
{
    right_wallet(r, client@, operation, wallets);
}

// ---------------------------------------------------------------------------
// Replies
// ---------------------------------------------------------------------------

/// Whether a list of errors is absent or empty.
pub open spec fn no_errors(errors: Option<Vec<ErrorDetail>>) -> bool {
    errors matches Some(list) ==> list@.len() == 0
}

/// Messages are joined in order, with a semicolon and a blank between.
pub proof fn messages_are_joined_in_order(
    first: ErrorDetail,
    second: ErrorDetail,
    none: Vec<ErrorDetail>,
    one: Vec<ErrorDetail>,
    two: Vec<ErrorDetail>,
    r0: String,
    r1: String,
    r2: String,
)
    requires
        none@.len() == 0,
        one@ == seq![first],
        two@ == seq![first, second],
        call_ensures(join_messages, (&none,), r0),
        call_ensures(join_messages, (&one,), r1),
        call_ensures(join_messages, (&two,), r2),
    ensures
        r0@.len() == 0,
        r1@ == first.message@,
        r2@ == first.message@ + "; "@ + second.message@,
{
    assert(messages(none@) =~= Seq::empty());
    assert(messages(one@) =~= seq![first.message@]);
    assert(messages(two@) =~= seq![first.message@].push(second.message@));
    parts_are_joined_in_order(seq![first.message@], first.message@, "; "@);
    parts_are_joined_in_order(seq![first.message@], second.message@, "; "@);
}

/// One more error adds its message behind a separator.
pub proof fn further_errors_are_added(
    before: Vec<ErrorDetail>,
    last: ErrorDetail,
    after: Vec<ErrorDetail>,
    r: String,
    s: String,
)
    requires
        before@.len() > 0,
        after@ == before@.push(last),
        call_ensures(join_messages, (&before,), r),
        call_ensures(join_messages, (&after,), s),
    ensures
        s@ == r@ + "; "@ + last.message@,
{
    assert(messages(after@) =~= messages(before@).push(last.message@));
    parts_are_joined_in_order(messages(before@), last.message@, "; "@);
}

/// A reply with data yields them, whatever its status and its errors; without data
/// it is an error that tells the messages, or that data are missing.
pub proof fn data_or_an_error<T>(
    reply: GraphqlReply<T>,
    r: Result<T, BlinkError>,
)
    requires
        call_ensures(BlinkClient::gql::<T>, (Exchange::Replied(reply),), r),
    ensures
        reply.data matches Some(data) ==> r == Ok::<T, BlinkError>(data),
        reply.data is None ==> r is Err,
        reply.data is None && no_errors(reply.errors) ==> r->Err_0@.text() == "missing data"@,
        reply.data is None ==> (reply.errors matches Some(list) ==> (list@.len() > 0 ==> if joined(
            messages(list@),
            "; "@,
        ).len() > 0 {
            r->Err_0@.text() == joined(messages(list@), "; "@)
        } else {
            r->Err_0@.text() == "missing data"@
        })),
{
    if let Some(list) = reply.errors {
        if list@.len() == 0 {
            assert(messages(list@) =~= Seq::empty());
        }
    }
}

/// An exchange that failed, or whose reply could not be read, is an error that
/// tells why.
pub proof fn failed_exchanges_are_errors<T>(
    reason: String,
    failed: Result<T, BlinkError>,
    unreadable: Result<T, BlinkError>,
)
    requires
        call_ensures(BlinkClient::gql::<T>, (Exchange::Failed(reason),), failed),
        call_ensures(BlinkClient::gql::<T>, (Exchange::Undecodable(reason),), unreadable),
    ensures
        failed matches Err(e) && e@.text() == reason@,
        unreadable matches Err(e) && e@.text() == "decode gql response: "@ + reason@,
{
}

/// An invoice comes out if and only if Blink reported one and no errors, and it is
/// that one.
pub proof fn reported_invoice_comes_out(
    exchange: Exchange<InvoiceCreation>,
    r: Result<InvoiceDetails, BlinkError>,
)
    requires
        call_ensures(BlinkClient::create_invoice, (exchange,), r),
    ensures
        r matches Ok(invoice) ==> (exchange matches Exchange::Replied(reply) && (
        reply.data matches Some(data) && data.invoice == Some(invoice) && no_errors(data.errors))),
        (exchange matches Exchange::Replied(reply) && (reply.data matches Some(data)
            && data.invoice is Some && no_errors(data.errors))) ==> r is Ok,
        exchange matches Exchange::Replied(reply) ==> (reply.data matches Some(data) ==> {
            &&& no_errors(data.errors) && data.invoice is None ==> r->Err_0@.text()
                == "invoice not present"@
            &&& data.errors matches Some(list) ==> (list@.len() > 0 ==> r->Err_0@.text() == joined(
                messages(list@),
                "; "@,
            ))
        }),
{
}

/// A fee comes out if and only if Blink reported one and no errors: that fee, or
/// nothing if it is negative.
pub proof fn reported_fee_comes_out(exchange: Exchange<FeeProbe>, r: Result<u64, BlinkError>)
    requires
        call_ensures(BlinkClient::probe_fee, (exchange,), r),
    ensures
        r matches Ok(fee) ==> (exchange matches Exchange::Replied(reply) && (
        reply.data matches Some(data) && no_errors(data.errors) && (data.amount matches Some(amount)
            && (amount >= 0 ==> fee == amount) && (amount < 0 ==> fee == 0)))),
        (exchange matches Exchange::Replied(reply) && (reply.data matches Some(data)
            && data.amount is Some && no_errors(data.errors))) ==> r is Ok,
        exchange matches Exchange::Replied(reply) ==> (reply.data matches Some(data) ==> {
            &&& no_errors(data.errors) && data.amount is None ==> r->Err_0@.text()
                == "fee probe amount not present"@
            &&& data.errors matches Some(list) ==> (list@.len() > 0 ==> r->Err_0@.text() == joined(
                messages(list@),
                "; "@,
            ))
        }),
{
}

/// A payment status comes out if and only if Blink reported no errors, and it is the
/// one that Blink reported.
pub proof fn reported_payment_status_comes_out(
    exchange: Exchange<PaymentSend>,
    r: Result<String, BlinkError>,
)
    requires
        call_ensures(BlinkClient::make_payment, (exchange,), r),
    ensures
        r matches Ok(status) ==> (exchange matches Exchange::Replied(reply) && (
        reply.data matches Some(data) && data.status@ == status@ && no_errors(data.errors))),
        (exchange matches Exchange::Replied(reply) && (reply.data matches Some(data) && no_errors(
            data.errors,
        ))) ==> r is Ok,
        exchange matches Exchange::Replied(reply) ==> (reply.data matches Some(data) ==> (
        data.errors matches Some(list) ==> (list@.len() > 0 ==> r->Err_0@.text() == joined(
            messages(list@),
            "; "@,
        )))),
{
}

/// The status, the hash and the preimage that Blink reports for a request come out,
/// an absent preimage as an empty one.
pub proof fn reported_status_by_request_comes_out(
    exchange: Exchange<StatusByRequest>,
    r: Result<(String, String, String), BlinkError>,
)
    requires
        call_ensures(BlinkClient::check_invoice_status_by_request, (exchange,), r),
    ensures
        r matches Ok((status, hash, preimage)) ==> (exchange matches Exchange::Replied(reply) && (
        reply.data matches Some(data) && status@ == data.status@ && hash@ == data.payment_hash@
            && match data.payment_preimage {
            Some(p) => preimage@ == p@,
            None => preimage@.len() == 0,
        })),
        r is Ok <==> (exchange matches Exchange::Replied(reply) && reply.data is Some),
{
}

/// The status, the request and the preimage that Blink reports for a hash come out,
/// an absent preimage as an empty one.
pub proof fn reported_status_by_hash_comes_out(
    exchange: Exchange<StatusByHash>,
    r: Result<(String, String, String), BlinkError>,
)
    requires
        call_ensures(BlinkClient::check_invoice_status_by_hash, (exchange,), r),
    ensures
        r matches Ok((status, request, preimage)) ==> (exchange matches Exchange::Replied(reply) && (
        reply.data matches Some(data) && status@ == data.status@ && request@
            == data.payment_request@ && match data.payment_preimage {
            Some(p) => preimage@ == p@,
            None => preimage@.len() == 0,
        })),
        r is Ok <==> (exchange matches Exchange::Replied(reply) && reply.data is Some),
{
}

/// Errors of Blink are told in its own words.
pub proof fn errors_are_told(reason: String, e: BlinkError, r: String)
    requires
        call_ensures(BlinkError::message, (&e,), r),
    ensures
        e == BlinkError::InvalidUrl(reason) ==> r@ == reason@,
        e == BlinkError::Transport(reason) ==> r@ == reason@,
        e == BlinkError::Reported(reason) ==> r@ == reason@,
        e == BlinkError::Undecodable(reason) ==> r@ == "decode gql response: "@ + reason@,
        e is MissingData ==> r@ == "missing data"@,
        e is NoWallet ==> r@ == "no wallet found"@,
        e is InvoiceNotPresent ==> r@ == "invoice not present"@,
        e is FeeNotPresent ==> r@ == "fee probe amount not present"@,
{
}

// ---------------------------------------------------------------------------
// Retrying
// ---------------------------------------------------------------------------

/// A query that keeps failing is made four times in all: again after one second, two
/// seconds and four seconds, and then no more.
pub proof fn four_attempts_with_doubling_delays(failures: nat)
    requires
        failures <= 3,
    ensures
        failures < 3 ==> (after_failures(failures).delay() matches Some(delay) && delay == 1000
            * pow2(failures)),
        failures == 3 ==> after_failures(failures).delay() is None,
{
    lemma2_to64();
    failures_are_retried_with_backoff(failures);
    delays_double_up_to_cap(1000, 30000, failures);
    if failures == 0 {
        assert(pow2(failures) == 1);
    } else if failures == 1 {
        assert(pow2(failures) == 2);
    } else if failures == 2 {
        assert(pow2(failures) == 4);
    }
}

/// Each failure counts, and while the query is made again it doubles the next
/// delay, up to half a minute.
pub proof fn each_failure_doubles_the_delay(retry: Retry)
    requires
        retry.attempts < u32::MAX,
    ensures
        retry.failed().attempts == retry.attempts + 1,
        retry.attempts < 3 ==> retry.delay() == Some(retry.backoff),
        retry.attempts < 3 && retry.backoff <= 15000 ==> retry.failed().backoff == 2
            * retry.backoff,
        retry.attempts < 3 && retry.backoff > 15000 ==> retry.failed().backoff == 30000,
        retry.attempts >= 3 ==> retry.delay() is None && retry.failed().backoff == retry.backoff,
{
}

/// The first attempt comes with nothing failed and a delay of one second; no delay
/// is longer than half a minute.
pub proof fn retries_begin_with_one_second(first: u64, longest: u64, r: Retry)
    requires
        call_ensures(initial_backoff, (), first),
        call_ensures(max_backoff, (), longest),
        call_ensures(Retry::new, (), r),
    ensures
        first == 1000,
        longest == 30 * 1000,
        r.attempts == 0,
        r.backoff == first,
        r == after_failures(0),
{
}

/// An answer ends the query; a failure is followed by another attempt after the delay
/// as long as fewer than three have failed before, and by the error itself otherwise.
pub proof fn answers_end_the_query<T>(retry: Retry, answer: T, e: BlinkError)
    requires
        retry.attempts < u32::MAX,
    ensures
        retry.after(Ok::<T, BlinkError>(answer)) == (retry, RetryStep::Done(answer)),
        retry.after(Err::<T, BlinkError>(e)).0.attempts == retry.attempts + 1,
        retry.attempts < 3 ==> {
            &&& retry.after(Err::<T, BlinkError>(e)).1 == RetryStep::<T>::RetryAfter(retry.backoff)
            &&& retry.backoff <= 15000 ==> retry.after(Err::<T, BlinkError>(e)).0.backoff == 2
                * retry.backoff
            &&& retry.backoff > 15000 ==> retry.after(Err::<T, BlinkError>(e)).0.backoff == 30000
        },
        retry.attempts >= 3 ==> retry.after(Err::<T, BlinkError>(e)).1 == RetryStep::<T>::GiveUp(e),
{
}

/// A client that gets another wallet uses that, and keeps its endpoint and its key.
pub proof fn another_wallet_changes_nothing_else(client: BlinkClientView, wallet_id: Seq<char>)
    ensures
        client.with_wallet(wallet_id).wallet_id == wallet_id,
        client.with_wallet(wallet_id).base_url == client.base_url,
        client.with_wallet(wallet_id).api_key == client.api_key,
{
}

/// What is sent is what a request holds: its endpoint, its headers in order, and its
/// body.
pub proof fn requests_are_sent_as_they_are(request: HttpRequest)
    ensures
        request@.url == request.url@,
        request@.headers.len() == request.headers@.len(),
        forall|i: int|
            0 <= i < request.headers@.len() ==> (#[trigger] request@.headers[i]).0
                == request.headers@[i].0@ && request@.headers[i].1 == request.headers@[i].1@,
        request@.body == request.body@,
{
}

} // verus!
