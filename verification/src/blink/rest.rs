//! Blink GraphQL API client: the requests that it sends, and what it makes of
//! the replies.

use vstd::prelude::*;

use crate::backoff::{delay_after, doubled, next_delay};
use crate::json::{unsigned_number, Json, JsonView};
use crate::settings::BackendConfig;
use crate::text::{joined, same_text};

verus! {

/// Asks for the wallets of the authenticated account.
pub const WALLETS_QUERY: &'static str = r#"
        query me { me { defaultAccount { wallets { id walletCurrency balance } } } }
        "#;

/// Creates an invoice.
pub const CREATE_INVOICE_QUERY: &'static str = r#"
        mutation LnInvoiceCreate($input: LnInvoiceCreateInput!) {
          lnInvoiceCreate(input: $input) {
            invoice { paymentRequest paymentHash paymentSecret satoshis }
            errors { message }
          }
        }
        "#;

/// Probes the routing fee of a payment.
pub const FEE_PROBE_QUERY: &'static str = r#"
        mutation lnInvoiceFeeProbe($input: LnInvoiceFeeProbeInput!) {
          lnInvoiceFeeProbe(input: $input) { amount errors { message } }
        }
        "#;

/// Pays an invoice.
pub const PAYMENT_SEND_QUERY: &'static str = r#"
        mutation lnInvoicePaymentSend($input: LnInvoicePaymentInput!) {
          lnInvoicePaymentSend(input:$input) { status errors { message } }
        }
        "#;

/// Asks for the status of a payment by its payment request.
pub const STATUS_BY_REQUEST_QUERY: &'static str = r#"
        query LnInvoicePaymentStatusByPaymentRequest($input: LnInvoicePaymentStatusByPaymentRequestInput!) {
            lnInvoicePaymentStatusByPaymentRequest(input: $input) {
                status
                paymentHash
                paymentPreimage
            }
        }
        "#;

/// Asks for the status of a payment by its payment hash.
pub const STATUS_BY_HASH_QUERY: &'static str = r#"
        query ($input: LnInvoicePaymentStatusByHashInput!) {
          lnInvoicePaymentStatusByHash(input: $input) {
            status paymentPreimage paymentRequest
          }
        }
        "#;

// ---------------------------------------------------------------------------
// Data
// ---------------------------------------------------------------------------

/// A wallet of a Blink account.
#[derive(Clone, Debug)]
pub struct Wallet {
    pub id: String,
    pub wallet_currency: String,
    pub balance: i64,
}

/// One error that Blink reports.
#[derive(Clone, Debug)]
pub struct ErrorDetail {
    pub message: String,
}

/// An invoice that Blink has created.
#[derive(Clone, Debug)]
pub struct InvoiceDetails {
    pub payment_request: String,
    pub payment_hash: String,
    pub payment_secret: String,
    pub satoshis: i64,
}

/// A GraphQL reply: the data that was asked for, errors, or both.
#[derive(Clone, Debug)]
pub struct GraphqlReply<T> {
    /// The HTTP status that it came with.
    pub status: u16,
    pub data: Option<T>,
    pub errors: Option<Vec<ErrorDetail>>,
}

/// How an HTTP exchange with the GraphQL endpoint ended.
#[derive(Clone, Debug)]
pub enum Exchange<T> {
    /// The request could not be sent, or the reply not be read, for this reason.
    Failed(String),
    /// This reply came, which is no GraphQL reply of the expected form.
    Undecodable(String),
    /// A GraphQL reply came.
    Replied(GraphqlReply<T>),
}

/// What Blink says about the creation of an invoice.
#[derive(Clone, Debug)]
pub struct InvoiceCreation {
    pub invoice: Option<InvoiceDetails>,
    pub errors: Option<Vec<ErrorDetail>>,
}

/// What Blink says about the routing fee of a payment.
#[derive(Clone, Debug)]
pub struct FeeProbe {
    pub amount: Option<i64>,
    pub errors: Option<Vec<ErrorDetail>>,
}

/// What Blink says about a payment that it was told to send.
#[derive(Clone, Debug)]
pub struct PaymentSend {
    pub status: String,
    pub errors: Option<Vec<ErrorDetail>>,
}

/// What Blink says about a payment that was asked for by its request.
#[derive(Clone, Debug)]
pub struct StatusByRequest {
    pub status: String,
    pub payment_hash: String,
    pub payment_preimage: Option<String>,
}

/// What Blink says about a payment that was asked for by its hash.
#[derive(Clone, Debug)]
pub struct StatusByHash {
    pub status: String,
    pub payment_preimage: Option<String>,
    pub payment_request: String,
}

/// An HTTP POST request with a JSON body.
#[derive(Debug)]
pub struct HttpRequest {
    pub url: String,
    pub headers: Vec<(String, String)>,
    pub body: Json,
}

/// What an [`HttpRequest`] holds.
pub struct HttpRequestView {
    pub url: Seq<char>,
    pub headers: Seq<(Seq<char>, Seq<char>)>,
    pub body: JsonView,
}

impl View for HttpRequest {
    type V = HttpRequestView;

    open spec fn view(&self) -> HttpRequestView {
        HttpRequestView {
            url: self.url@,
            headers: Seq::new(
                self.headers@.len(),
                |i: int| (self.headers@[i].0@, self.headers@[i].1@),
            ),
            body: self.body@,
        }
    }
}

// ---------------------------------------------------------------------------
// Errors
// ---------------------------------------------------------------------------

/// Why an operation on Blink's API failed.
#[derive(Clone, Debug)]
pub enum BlinkError {
    /// The configured endpoint is no URL, for this reason.
    InvalidUrl(String),
    /// The HTTP exchange failed, for this reason.
    Transport(String),
    /// This reply is no GraphQL reply of the expected form.
    Undecodable(String),
    /// Blink reported these errors.
    Reported(String),
    /// The reply has neither data nor an error message.
    MissingData,
    /// The account has no wallet.
    NoWallet,
    /// The reply to the creation of an invoice has none.
    InvoiceNotPresent,
    /// The reply to a fee probe has no amount.
    FeeNotPresent,
}

/// What a [`BlinkError`] says.
pub enum BlinkErrorView {
    InvalidUrl(Seq<char>),
    Transport(Seq<char>),
    Undecodable(Seq<char>),
    Reported(Seq<char>),
    MissingData,
    NoWallet,
    InvoiceNotPresent,
    FeeNotPresent,
}

impl View for BlinkError {
    type V = BlinkErrorView;

    open spec fn view(&self) -> BlinkErrorView {
        match self {
            BlinkError::InvalidUrl(s) => BlinkErrorView::InvalidUrl(s@),
            BlinkError::Transport(s) => BlinkErrorView::Transport(s@),
            BlinkError::Undecodable(s) => BlinkErrorView::Undecodable(s@),
            BlinkError::Reported(s) => BlinkErrorView::Reported(s@),
            BlinkError::MissingData => BlinkErrorView::MissingData,
            BlinkError::NoWallet => BlinkErrorView::NoWallet,
            BlinkError::InvoiceNotPresent => BlinkErrorView::InvoiceNotPresent,
            BlinkError::FeeNotPresent => BlinkErrorView::FeeNotPresent,
        }
    }
}

impl BlinkErrorView {
    /// The message of the error.
    pub open spec fn text(self) -> Seq<char> {
        match self {
            BlinkErrorView::InvalidUrl(s) => s,
            BlinkErrorView::Transport(s) => s,
            BlinkErrorView::Undecodable(s) => "decode gql response: "@ + s,
            BlinkErrorView::Reported(s) => s,
            BlinkErrorView::MissingData => "missing data"@,
            BlinkErrorView::NoWallet => "no wallet found"@,
            BlinkErrorView::InvoiceNotPresent => "invoice not present"@,
            BlinkErrorView::FeeNotPresent => "fee probe amount not present"@,
        }
    }
}

impl BlinkError {
    /// The message of the error.
    pub fn message(&self) -> (r: String)
        ensures
            r@ == self@.text(),
    {
        match self {
            BlinkError::InvalidUrl(s) => s.clone(),
            BlinkError::Transport(s) => s.clone(),
            BlinkError::Undecodable(s) => {
                "decode gql response: ".to_string().concat(s.as_str())
            },
            BlinkError::Reported(s) => s.clone(),
            BlinkError::MissingData => "missing data".to_string(),
            BlinkError::NoWallet => "no wallet found".to_string(),
            BlinkError::InvoiceNotPresent => "invoice not present".to_string(),
            BlinkError::FeeNotPresent => "fee probe amount not present".to_string(),
        }
    }
}

/// Whether a result is the given error.
pub open spec fn fails_with<T>(r: Result<T, BlinkError>, e: BlinkErrorView) -> bool {
    r matches Err(x) && x@ == e
}

/// The messages of errors, in order.
pub open spec fn messages(errors: Seq<ErrorDetail>) -> Seq<Seq<char>> {
    errors.map_values(|e: ErrorDetail| e.message@)
}

/// The messages of errors in one text, with a semicolon and a space between.
pub open spec fn joined_messages(errors: Seq<ErrorDetail>) -> Seq<char> {
    joined(messages(errors), "; "@)
}

/// The messages of errors in one text.
pub fn join_messages(errors: &Vec<ErrorDetail>) -> (r: String)
    ensures
        r@ == joined_messages(errors@),
{
    let mut r = String::new();
    for i in 0..errors.len()
        invariant
            r@ == joined(messages(errors@).take(i as int), "; "@),
    {
        let ghost parts = messages(errors@);
        assert(parts.take(i as int + 1).drop_last() == parts.take(i as int));
        if i > 0 {
            r.append("; ");
        }
        r.append(errors[i].message.as_str());
        assert(r@ == joined(parts.take(i as int + 1), "; "@)) by {
            if i == 0 {
                assert(parts.take(0) == Seq::<Seq<char>>::empty());
                assert(r@ == parts[0]);
            }
        }
    }
    assert(messages(errors@).take(errors@.len() as int) == messages(errors@));
    r
}

/// The errors of a mutation, if there are any, in one text.
pub open spec fn reported_errors(errors: Option<Vec<ErrorDetail>>) -> Option<Seq<char>> {
    match errors {
        Some(list) => if list@.len() > 0 {
            Some(joined_messages(list@))
        } else {
            None
        },
        None => None,
    }
}

/// Fails with the errors of a mutation, if there are any.
fn refuse_errors(errors: &Option<Vec<ErrorDetail>>) -> (r: Result<(), BlinkError>)
    ensures
        match reported_errors(*errors) {
            Some(s) => fails_with(r, BlinkErrorView::Reported(s)),
            None => r is Ok,
        },
{
    match errors {
        Some(list) => {
            if list.len() > 0 {
                return Err(BlinkError::Reported(join_messages(list)));
            }
            Ok(())
        },
        None => Ok(()),
    }
}

// ---------------------------------------------------------------------------
// Client
// ---------------------------------------------------------------------------

/// What `reqwest::Url::parse` makes of a text: the URL that it stands for as
/// `Url::as_str` writes it, or why it is none.
pub uninterp spec fn parsed_url(text: Seq<char>) -> Result<Seq<char>, Seq<char>>;

/// The text of a result that is a text either way.
pub open spec fn text_result(r: Result<String, String>) -> Result<Seq<char>, Seq<char>> {
    match r {
        Ok(s) => Ok(s@),
        Err(s) => Err(s@),
    }
}

/// `reqwest::Url::parse`: whether a text is a URL, how the URL is then written,
/// and the error otherwise as `Display` writes it, depend on the text alone.
#[verifier::external_body]
fn parse_url(text: &str) -> (r: Result<String, String>)
    ensures
        text_result(r) == parsed_url(text@),
{
    match reqwest::Url::parse(text) {
        Ok(url) => Ok(url.as_str().to_string()),
        Err(e) => Err(e.to_string()),
    }
}

/// Client of the Blink GraphQL API.
#[derive(Clone, Debug)]
pub struct BlinkClient {
    base_url: String,
    api_key: String,
    wallet_id: String,
}

/// What a [`BlinkClient`] holds.
pub struct BlinkClientView {
    pub base_url: Seq<char>,
    pub api_key: Seq<char>,
    pub wallet_id: Seq<char>,
}

impl BlinkClientView {
    /// The same client with another wallet.
    pub open spec fn with_wallet(self, wallet_id: Seq<char>) -> BlinkClientView {
        BlinkClientView { wallet_id, ..self }
    }
}

impl View for BlinkClient {
    type V = BlinkClientView;

    closed spec fn view(&self) -> BlinkClientView {
        BlinkClientView {
            base_url: self.base_url@,
            api_key: self.api_key@,
            wallet_id: self.wallet_id@,
        }
    }
}

/// How the wallet of an operation is found.
#[derive(Debug)]
pub enum WalletStep {
    /// The wallet is configured.
    Use(String),
    /// Blink has to be asked for the account's wallets first.
    Query(HttpRequest),
}

/// What is to be sent for an operation in a wallet.
#[derive(Debug)]
pub enum RequestStep {
    /// The request for the operation.
    Send(HttpRequest),
    /// The question for the account's wallets, which comes first.
    Query(HttpRequest),
}

/// What became of a query that is repeated when it fails.
#[derive(Debug)]
pub enum RetryStep<T> {
    /// The query has its answer.
    Done(T),
    /// The query is to be made again after this many milliseconds.
    RetryAfter(u64),
    /// The query failed too often; this is the last error.
    GiveUp(BlinkError),
}

/// How far a repeated query has come.
#[derive(Clone, Copy, Debug, PartialEq, Eq, Structural)]
pub struct Retry {
    /// How many times it has failed.
    pub attempts: u32,
    /// The delay before the next attempt, in milliseconds.
    pub backoff: u64,
}

/// How often a query may fail and still be made again.
pub const MAX_RETRIES: u32 = 3;

/// The first delay between attempts, in milliseconds.
pub fn initial_backoff() -> (r: u64)
    ensures
        r == 1000,
{
    1000
}

/// The longest delay between attempts, in milliseconds.
pub fn max_backoff() -> (r: u64)
    ensures
        r == 30000,
{
    30000
}

impl Retry {
    /// No attempt has failed yet.
    pub fn new() -> (r: Retry)
        ensures
            r == (Retry { attempts: 0, backoff: 1000 }),
    {
        Retry { attempts: 0, backoff: initial_backoff() }
    }

    /// The delay after which the query is made again if it fails once more; none if
    /// it is given up then.
    pub open spec fn delay(self) -> Option<u64> {
        if self.attempts < MAX_RETRIES {
            Some(self.backoff)
        } else {
            None
        }
    }

    /// What follows an attempt: how far the query has come, and what is done next.
    pub open spec fn after<T>(self, outcome: Result<T, BlinkError>) -> (Retry, RetryStep<T>) {
        match outcome {
            Ok(answer) => (self, RetryStep::Done(answer)),
            Err(e) => (
                self.failed(),
                match self.delay() {
                    Some(delay) => RetryStep::RetryAfter(delay),
                    None => RetryStep::GiveUp(e),
                },
            ),
        }
    }

    /// How far the query has come after one more failure.
    pub open spec fn failed(self) -> Retry {
        Retry {
            attempts: (self.attempts + 1) as u32,
            backoff: if self.attempts < MAX_RETRIES {
                doubled(self.backoff, 30000)
            } else {
                self.backoff
            },
        }
    }
}

/// The wallet that is taken from an account: the first BTC wallet, or the first
/// wallet if none is in BTC.
pub open spec fn is_default_wallet(wallets: Seq<Wallet>, i: int) -> bool {
    &&& 0 <= i < wallets.len()
    &&& if has_btc_wallet(wallets) {
        is_btc(wallets[i]) && forall|k: int| 0 <= k < i ==> !is_btc(#[trigger] wallets[k])
    } else {
        i == 0
    }
}

/// Whether the wallet is in BTC.
pub open spec fn is_btc(wallet: Wallet) -> bool {
    wallet.wallet_currency@ == "BTC"@
}

/// Whether one of the wallets is in BTC.
pub open spec fn has_btc_wallet(wallets: Seq<Wallet>) -> bool {
    exists|k: int| 0 <= k < wallets.len() && is_btc(#[trigger] wallets[k])
}

/// What an exchange yields: the data of the reply if it has any, whatever errors
/// stand beside it; else an error.
pub open spec fn gql_outcome<T>(exchange: Exchange<T>) -> Result<T, BlinkErrorView> {
    match exchange {
        Exchange::Failed(e) => Err(BlinkErrorView::Transport(e@)),
        Exchange::Undecodable(body) => Err(BlinkErrorView::Undecodable(body@)),
        Exchange::Replied(reply) => match reply.data {
            Some(data) => Ok(data),
            None => {
                let text = match reply.errors {
                    Some(errors) => joined_messages(errors@),
                    None => Seq::empty(),
                };
                if text.len() == 0 {
                    Err(BlinkErrorView::MissingData)
                } else {
                    Err(BlinkErrorView::Reported(text))
                }
            },
        },
    }
}

/// The text of a string that may be absent; empty if it is.
pub open spec fn text_or_empty(o: Option<String>) -> Seq<char> {
    match o {
        Some(s) => s@,
        None => Seq::empty(),
    }
}

/// The request that carries a query with its variables.
pub open spec fn gql_request_view(
    client: BlinkClientView,
    query: Seq<char>,
    variables: JsonView,
) -> HttpRequestView {
    HttpRequestView {
        url: client.base_url,
        headers: seq![
            ("Content-Type"@, "application/json"@),
            ("X-API-KEY"@, client.api_key),
        ],
        body: JsonView::Object(
            seq![("query"@, JsonView::Str(query)), ("variables"@, variables)],
        ),
    }
}

/// Variables that hold an input object.
pub open spec fn input_variables(input: Seq<(Seq<char>, JsonView)>) -> JsonView {
    JsonView::Object(seq![("input"@, JsonView::Object(input))])
}

/// The request for the wallets of the account.
pub open spec fn wallets_request_view(client: BlinkClientView) -> HttpRequestView {
    gql_request_view(client, WALLETS_QUERY@, JsonView::Object(Seq::empty()))
}

/// The request that creates an invoice of the given number of satoshis.
pub open spec fn create_invoice_view(
    client: BlinkClientView,
    wallet_id: Seq<char>,
    amount: u64,
    memo: Seq<char>,
) -> HttpRequestView {
    gql_request_view(
        client,
        CREATE_INVOICE_QUERY@,
        input_variables(
            seq![
                ("walletId"@, JsonView::Str(wallet_id)),
                ("amount"@, JsonView::Number(unsigned_number(amount))),
                ("memo"@, JsonView::Str(memo)),
            ],
        ),
    )
}

/// The request that probes the routing fee for paying a BOLT11 invoice.
pub open spec fn probe_fee_view(
    client: BlinkClientView,
    wallet_id: Seq<char>,
    bolt11: Seq<char>,
) -> HttpRequestView {
    gql_request_view(
        client,
        FEE_PROBE_QUERY@,
        input_variables(
            seq![
                ("walletId"@, JsonView::Str(wallet_id)),
                ("paymentRequest"@, JsonView::Str(bolt11)),
            ],
        ),
    )
}

/// The request that pays a BOLT11 invoice.
pub open spec fn make_payment_view(
    client: BlinkClientView,
    wallet_id: Seq<char>,
    bolt11: Seq<char>,
) -> HttpRequestView {
    gql_request_view(
        client,
        PAYMENT_SEND_QUERY@,
        input_variables(
            seq![
                ("walletId"@, JsonView::Str(wallet_id)),
                ("paymentRequest"@, JsonView::Str(bolt11)),
                ("memo"@, JsonView::Str(""@)),
            ],
        ),
    )
}

/// The request for the status of a payment by its payment request.
pub open spec fn status_by_request_view(
    client: BlinkClientView,
    payment_request: Seq<char>,
) -> HttpRequestView {
    gql_request_view(
        client,
        STATUS_BY_REQUEST_QUERY@,
        input_variables(seq![("paymentRequest"@, JsonView::Str(payment_request))]),
    )
}

/// The request for the status of a payment by its payment hash.
pub open spec fn status_by_hash_view(
    client: BlinkClientView,
    payment_hash: Seq<char>,
) -> HttpRequestView {
    gql_request_view(
        client,
        STATUS_BY_HASH_QUERY@,
        input_variables(seq![("paymentHash"@, JsonView::Str(payment_hash))]),
    )
}

/// What is done in a wallet.
#[derive(Clone, Copy, Debug)]
pub enum WalletOperation<'a> {
    CreateInvoice { amount: u64, memo: &'a str },
    ProbeFee { bolt11: &'a str },
    MakePayment { bolt11: &'a str },
}

/// What is done in a wallet, as a value.
pub enum WalletOperationView {
    CreateInvoice { amount: u64, memo: Seq<char> },
    ProbeFee { bolt11: Seq<char> },
    MakePayment { bolt11: Seq<char> },
}

impl<'a> View for WalletOperation<'a> {
    type V = WalletOperationView;

    open spec fn view(&self) -> WalletOperationView {
        match self {
            WalletOperation::CreateInvoice { amount, memo } => WalletOperationView::CreateInvoice {
                amount: *amount,
                memo: memo@,
            },
            WalletOperation::ProbeFee { bolt11 } => WalletOperationView::ProbeFee {
                bolt11: bolt11@,
            },
            WalletOperation::MakePayment { bolt11 } => WalletOperationView::MakePayment {
                bolt11: bolt11@,
            },
        }
    }
}

/// The request for an operation in a wallet.
pub open spec fn operation_view(
    client: BlinkClientView,
    wallet_id: Seq<char>,
    operation: WalletOperationView,
) -> HttpRequestView {
    match operation {
        WalletOperationView::CreateInvoice { amount, memo } => create_invoice_view(
            client,
            wallet_id,
            amount,
            memo,
        ),
        WalletOperationView::ProbeFee { bolt11 } => probe_fee_view(client, wallet_id, bolt11),
        WalletOperationView::MakePayment { bolt11 } => make_payment_view(
            client,
            wallet_id,
            bolt11,
        ),
    }
}

/// Whether the right request for an operation has come out: in the configured
/// wallet if there is one; else the question for the wallets of the account, and,
/// once it is answered, the request in the default wallet.
pub open spec fn asks_in_wallet(
    r: Result<RequestStep, BlinkError>,
    client: BlinkClientView,
    operation: WalletOperationView,
    wallets: Option<Exchange<Vec<Wallet>>>,
) -> bool {
    if client.wallet_id.len() > 0 {
        r matches Ok(RequestStep::Send(request)) && request@ == operation_view(
            client,
            client.wallet_id,
            operation,
        )
    } else {
        match wallets {
            None => r matches Ok(RequestStep::Query(request)) && request@ == wallets_request_view(
                client,
            ),
            Some(exchange) => match gql_outcome(exchange) {
                Ok(wallets) => if wallets@.len() == 0 {
                    fails_with(r, BlinkErrorView::NoWallet)
                } else {
                    r matches Ok(RequestStep::Send(request)) && exists|i: int| #[trigger]
                        is_default_wallet(wallets@, i) && request@ == operation_view(
                            client,
                            wallets@[i].id@,
                            operation,
                        )
                },
                Err(e) => fails_with(r, e),
            },
        }
    }
}

impl BlinkClient {
    /// Creates a client from the backend configuration.
    pub fn new(cfg: &BackendConfig) -> (r: Result<BlinkClient, BlinkError>)
        ensures
            match parsed_url(cfg.api_url@) {
                Ok(url) => r matches Ok(client) && client@ == (BlinkClientView {
                    base_url: url,
                    api_key: cfg.api_key@,
                    wallet_id: cfg.wallet_id@,
                }),
                Err(e) => fails_with(r, BlinkErrorView::InvalidUrl(e)),
            },
    {
        BlinkClient::at_url(parse_url(cfg.api_url.as_str()), cfg)
    }

    /// Creates a client for an endpoint that has been read as a URL, or could
    /// not be.
    pub fn at_url(url: Result<String, String>, cfg: &BackendConfig) -> (r: Result<
        BlinkClient,
        BlinkError,
    >)
        ensures
            match url {
                Ok(url) => r matches Ok(client) && client@ == (BlinkClientView {
                    base_url: url@,
                    api_key: cfg.api_key@,
                    wallet_id: cfg.wallet_id@,
                }),
                Err(e) => fails_with(r, BlinkErrorView::InvalidUrl(e@)),
            },
    {
        match url {
            Ok(url) => Ok(
                BlinkClient {
                    base_url: url,
                    api_key: cfg.api_key.clone(),
                    wallet_id: cfg.wallet_id.clone(),
                },
            ),
            Err(e) => Err(BlinkError::InvalidUrl(e)),
        }
    }

    /// The Blink API URL.
    pub fn api_url(&self) -> (r: &str)
        ensures
            r@ == self@.base_url,
    {
        self.base_url.as_str()
    }

    /// The Blink API key.
    pub fn api_key_str(&self) -> (r: &str)
        ensures
            r@ == self@.api_key,
    {
        self.api_key.as_str()
    }

    /// Overrides the wallet (used after resolving the default wallet).
    pub fn set_wallet_id(&mut self, wallet_id: String)
        ensures
            final(self)@ == old(self)@.with_wallet(wallet_id@),
    {
        self.wallet_id = wallet_id;
    }

    /// The request that carries a query with its variables.
    pub fn gql_request(&self, query: &str, variables: Json) -> (r: HttpRequest)
        ensures
            r@ == gql_request_view(self@, query@, variables@),
    {
        let mut headers: Vec<(String, String)> = Vec::new();
        headers.push(("Content-Type".to_string(), "application/json".to_string()));
        headers.push(("X-API-KEY".to_string(), self.api_key.clone()));
        let body = Json::object_of("query", Json::text(query)).with("variables", variables);
        let r = HttpRequest { url: self.base_url.clone(), headers, body };
        assert(r@.headers =~= seq![
            ("Content-Type"@, "application/json"@),
            ("X-API-KEY"@, self@.api_key),
        ]);
        assert(r@.body->Object_0 =~= seq![
            ("query"@, JsonView::Str(query@)),
            ("variables"@, variables@),
        ]);
        r
    }

    /// The data that an exchange yields.
    pub fn gql<T>(exchange: Exchange<T>) -> (r: Result<T, BlinkError>)
        ensures
            match gql_outcome(exchange) {
                Ok(data) => r == Ok::<T, BlinkError>(data),
                Err(e) => fails_with(r, e),
            },
    {
        match exchange {
            Exchange::Failed(e) => Err(BlinkError::Transport(e)),
            Exchange::Undecodable(body) => Err(BlinkError::Undecodable(body)),
            Exchange::Replied(reply) => match reply.data {
                Some(data) => Ok(data),
                None => {
                    let text = match &reply.errors {
                        Some(errors) => join_messages(errors),
                        None => String::new(),
                    };
                    if text.as_str().is_empty() {
                        Err(BlinkError::MissingData)
                    } else {
                        Err(BlinkError::Reported(text))
                    }
                },
            },
        }
    }

    /// The request for the wallets of the account.
    pub fn wallets_request(&self) -> (r: HttpRequest)
        ensures
            r@ == wallets_request_view(self@),
    {
        let variables = Json::Object(Vec::new());
        assert(variables@->Object_0 =~= Seq::empty());
        self.gql_request(WALLETS_QUERY, variables)
    }

    /// The default wallet among those that Blink reports: the first BTC wallet,
    /// or the first wallet if none is in BTC.
    pub fn get_default_wallet(exchange: Exchange<Vec<Wallet>>) -> (r: Result<Wallet, BlinkError>)
        ensures
            match gql_outcome(exchange) {
                Ok(wallets) => if wallets@.len() == 0 {
                    fails_with(r, BlinkErrorView::NoWallet)
                } else {
                    r matches Ok(wallet) && exists|i: int| #[trigger]
                        is_default_wallet(wallets@, i) && wallet == wallets@[i]
                },
                Err(e) => fails_with(r, e),
            },
    {
        let mut wallets = match BlinkClient::gql(exchange) {
            Ok(wallets) => wallets,
            Err(e) => {
                return Err(e);
            },
        };
        let ghost all = wallets@;
        if wallets.len() == 0 {
            return Err(BlinkError::NoWallet);
        }
        let count: usize = wallets.len();
        for i in 0..count
            invariant
                wallets@ == all,
                count == all.len(),
                all.len() > 0,
                gql_outcome(exchange) matches Ok(w) && w@ == all,
                forall|k: int| 0 <= k < i ==> !is_btc(#[trigger] all[k]),
        {
            if same_text(wallets[i].wallet_currency.as_str(), "BTC") {
                proof {
                    assert(is_btc(all[i as int]));
                    assert(is_default_wallet(all, i as int));
                }
                return Ok(wallets.swap_remove(i));
            }
        }
        assert(is_default_wallet(all, 0));
        Ok(wallets.swap_remove(0))
    }

    /// The configured wallet, or the query that finds the default one if none is
    /// configured.
    pub fn resolve_wallet_id(&self) -> (r: WalletStep)
        ensures
            if self@.wallet_id.len() > 0 {
                r matches WalletStep::Use(id) && id@ == self@.wallet_id
            } else {
                r matches WalletStep::Query(request) && request@ == wallets_request_view(self@)
            },
    {
        if !self.wallet_id.as_str().is_empty() {
            return WalletStep::Use(self.wallet_id.clone());
        }
        WalletStep::Query(self.wallets_request())
    }

    /// What is to be sent for an operation, given what came of the question for
    /// the account's wallets if it has been asked. It is asked if no wallet is
    /// configured.
    pub fn wallet_request(
        &self,
        operation: WalletOperation,
        wallets: Option<Exchange<Vec<Wallet>>>,
    ) -> (r: Result<RequestStep, BlinkError>)
        ensures
            asks_in_wallet(r, self@, operation@, wallets),
    {
        match self.resolve_wallet_id() {
            WalletStep::Use(wallet_id) => Ok(
                RequestStep::Send(self.operation_request(wallet_id.as_str(), operation)),
            ),
            WalletStep::Query(request) => match wallets {
                None => Ok(RequestStep::Query(request)),
                Some(exchange) => match BlinkClient::get_default_wallet(exchange) {
                    Ok(wallet) => Ok(
                        RequestStep::Send(self.operation_request(wallet.id.as_str(), operation)),
                    ),
                    Err(e) => Err(e),
                },
            },
        }
    }

    /// The request for an operation in a wallet.
    fn operation_request(&self, wallet_id: &str, operation: WalletOperation) -> (r: HttpRequest)
        ensures
            r@ == operation_view(self@, wallet_id@, operation@),
    {
        match operation {
            WalletOperation::CreateInvoice { amount, memo } => {
                self.create_invoice_request(wallet_id, amount, memo)
            },
            WalletOperation::ProbeFee { bolt11 } => self.probe_fee_request(wallet_id, bolt11),
            WalletOperation::MakePayment { bolt11 } => {
                self.make_payment_request(wallet_id, bolt11)
            },
        }
    }

    /// The request that creates an invoice of the given number of satoshis.
    pub fn create_invoice_request(&self, wallet_id: &str, amount: u64, memo: &str) -> (r:
        HttpRequest)
        ensures
            r@ == create_invoice_view(self@, wallet_id@, amount, memo@),
    {
        let input = Json::object_of("walletId", Json::text(wallet_id)).with(
            "amount",
            Json::unsigned(amount),
        ).with("memo", Json::text(memo));
        assert(input@->Object_0 =~= seq![
            ("walletId"@, JsonView::Str(wallet_id@)),
            ("amount"@, JsonView::Number(unsigned_number(amount))),
            ("memo"@, JsonView::Str(memo@)),
        ]);
        self.gql_request(CREATE_INVOICE_QUERY, Json::object_of("input", input))
    }

    /// The invoice that Blink has created.
    pub fn create_invoice(exchange: Exchange<InvoiceCreation>) -> (r: Result<
        InvoiceDetails,
        BlinkError,
    >)
        ensures
            match gql_outcome(exchange) {
                Ok(reply) => match (reported_errors(reply.errors), reply.invoice) {
                    (Some(s), _) => fails_with(r, BlinkErrorView::Reported(s)),
                    (None, Some(invoice)) => r == Ok::<InvoiceDetails, BlinkError>(invoice),
                    (None, None) => fails_with(r, BlinkErrorView::InvoiceNotPresent),
                },
                Err(e) => fails_with(r, e),
            },
    {
        let reply = match BlinkClient::gql(exchange) {
            Ok(reply) => reply,
            Err(e) => {
                return Err(e);
            },
        };
        match refuse_errors(&reply.errors) {
            Ok(()) => {},
            Err(e) => {
                return Err(e);
            },
        }
        match reply.invoice {
            Some(invoice) => Ok(invoice),
            None => Err(BlinkError::InvoiceNotPresent),
        }
    }

    /// The request that probes the routing fee for paying a BOLT11 invoice.
    pub fn probe_fee_request(&self, wallet_id: &str, bolt11: &str) -> (r: HttpRequest)
        ensures
            r@ == probe_fee_view(self@, wallet_id@, bolt11@),
    {
        let input = Json::object_of("walletId", Json::text(wallet_id)).with(
            "paymentRequest",
            Json::text(bolt11),
        );
        assert(input@->Object_0 =~= seq![
            ("walletId"@, JsonView::Str(wallet_id@)),
            ("paymentRequest"@, JsonView::Str(bolt11@)),
        ]);
        self.gql_request(FEE_PROBE_QUERY, Json::object_of("input", input))
    }

    /// The routing fee that Blink reports, in satoshis; a negative one counts as
    /// none.
    pub fn probe_fee(exchange: Exchange<FeeProbe>) -> (r: Result<u64, BlinkError>)
        ensures
            match gql_outcome(exchange) {
                Ok(reply) => match (reported_errors(reply.errors), reply.amount) {
                    (Some(s), _) => fails_with(r, BlinkErrorView::Reported(s)),
                    (None, Some(amount)) => r matches Ok(fee) && fee == (if amount > 0 {
                        amount as int
                    } else {
                        0
                    }),
                    (None, None) => fails_with(r, BlinkErrorView::FeeNotPresent),
                },
                Err(e) => fails_with(r, e),
            },
    {
        let reply = match BlinkClient::gql(exchange) {
            Ok(reply) => reply,
            Err(e) => {
                return Err(e);
            },
        };
        match refuse_errors(&reply.errors) {
            Ok(()) => {},
            Err(e) => {
                return Err(e);
            },
        }
        match reply.amount {
            Some(amount) => if amount > 0 {
                Ok(amount as u64)
            } else {
                Ok(0)
            },
            None => Err(BlinkError::FeeNotPresent),
        }
    }

    /// The request that pays a BOLT11 invoice.
    pub fn make_payment_request(&self, wallet_id: &str, bolt11: &str) -> (r: HttpRequest)
        ensures
            r@ == make_payment_view(self@, wallet_id@, bolt11@),
    {
        let input = Json::object_of("walletId", Json::text(wallet_id)).with(
            "paymentRequest",
            Json::text(bolt11),
        ).with("memo", Json::text(""));
        assert(input@->Object_0 =~= seq![
            ("walletId"@, JsonView::Str(wallet_id@)),
            ("paymentRequest"@, JsonView::Str(bolt11@)),
            ("memo"@, JsonView::Str(""@)),
        ]);
        self.gql_request(PAYMENT_SEND_QUERY, Json::object_of("input", input))
    }

    /// The status of the payment as Blink reports it ("SUCCESS", "PENDING", or
    /// "FAILURE").
    pub fn make_payment(exchange: Exchange<PaymentSend>) -> (r: Result<String, BlinkError>)
        ensures
            match gql_outcome(exchange) {
                Ok(reply) => match reported_errors(reply.errors) {
                    Some(s) => fails_with(r, BlinkErrorView::Reported(s)),
                    None => r == Ok::<String, BlinkError>(reply.status),
                },
                Err(e) => fails_with(r, e),
            },
    {
        let reply = match BlinkClient::gql(exchange) {
            Ok(reply) => reply,
            Err(e) => {
                return Err(e);
            },
        };
        match refuse_errors(&reply.errors) {
            Ok(()) => Ok(reply.status),
            Err(e) => Err(e),
        }
    }

    /// The request for the status of a payment by its payment request.
    pub fn status_by_request_request(&self, payment_request: &str) -> (r: HttpRequest)
        ensures
            r@ == status_by_request_view(self@, payment_request@),
    {
        let input = Json::object_of("paymentRequest", Json::text(payment_request));
        self.gql_request(STATUS_BY_REQUEST_QUERY, Json::object_of("input", input))
    }

    /// The status of a payment that was asked for by its payment request:
    /// `(status, payment_hash, payment_preimage)`.
    pub fn check_invoice_status_by_request(exchange: Exchange<StatusByRequest>) -> (r: Result<
        (String, String, String),
        BlinkError,
    >)
        ensures
            match gql_outcome(exchange) {
                Ok(reply) => r matches Ok((status, hash, preimage)) && status@ == reply.status@
                    && hash@ == reply.payment_hash@ && preimage@ == text_or_empty(
                    reply.payment_preimage,
                ),
                Err(e) => fails_with(r, e),
            },
    {
        let reply = match BlinkClient::gql(exchange) {
            Ok(reply) => reply,
            Err(e) => {
                return Err(e);
            },
        };
        let preimage = match reply.payment_preimage {
            Some(s) => s,
            None => String::new(),
        };
        Ok((reply.status, reply.payment_hash, preimage))
    }

    /// The request for the status of a payment by its payment hash.
    pub fn status_by_hash_request(&self, payment_hash: &str) -> (r: HttpRequest)
        ensures
            r@ == status_by_hash_view(self@, payment_hash@),
    {
        let input = Json::object_of("paymentHash", Json::text(payment_hash));
        self.gql_request(STATUS_BY_HASH_QUERY, Json::object_of("input", input))
    }

    /// The status of a payment that was asked for by its payment hash:
    /// `(status, payment_request, payment_preimage)`.
    pub fn check_invoice_status_by_hash(exchange: Exchange<StatusByHash>) -> (r: Result<
        (String, String, String),
        BlinkError,
    >)
        ensures
            match gql_outcome(exchange) {
                Ok(reply) => r matches Ok((status, request, preimage)) && status@ == reply.status@
                    && request@ == reply.payment_request@ && preimage@ == text_or_empty(
                    reply.payment_preimage,
                ),
                Err(e) => fails_with(r, e),
            },
    {
        let reply = match BlinkClient::gql(exchange) {
            Ok(reply) => reply,
            Err(e) => {
                return Err(e);
            },
        };
        let preimage = match reply.payment_preimage {
            Some(s) => s,
            None => String::new(),
        };
        Ok((reply.status, reply.payment_request, preimage))
    }

    /// What follows one attempt of a status query: its answer, another attempt
    /// after a delay, or the last error when the query has failed too often.
    pub fn check_invoice_status_with_retry<T>(
        retry: &mut Retry,
        outcome: Result<T, BlinkError>,
    ) -> (r: RetryStep<T>)
        requires
            old(retry).attempts < u32::MAX,
        ensures
            (*final(retry), r) == old(retry).after(outcome),
    {
        match outcome {
            Ok(answer) => RetryStep::Done(answer),
            Err(e) => {
                retry.attempts = retry.attempts + 1;
                if retry.attempts > MAX_RETRIES {
                    return RetryStep::GiveUp(e);
                }
                let delay: u64 = retry.backoff;
                retry.backoff = next_delay(delay, max_backoff());
                RetryStep::RetryAfter(delay)
            },
        }
    }
}

// ---------------------------------------------------------------------------
// Laws
// ---------------------------------------------------------------------------

/// Data outweighs errors: a reply that has data yields them, whatever errors
/// stand beside them.
pub proof fn data_outweighs_errors<T>(status: u16, data: T, errors: Option<Vec<ErrorDetail>>)
    ensures
        gql_outcome(Exchange::Replied(GraphqlReply { status, data: Some(data), errors })) == Ok::<
            T,
            BlinkErrorView,
        >(data),
{
}

/// The HTTP status does not matter: what counts is what the reply holds.
pub proof fn http_status_does_not_matter<T>(reply: GraphqlReply<T>, status: u16)
    ensures
        gql_outcome(Exchange::Replied(reply)) == gql_outcome(
            Exchange::Replied(GraphqlReply { status, ..reply }),
        ),
{
}

/// An exchange that brought no data never counts as a success.
pub proof fn no_data_is_an_error<T>(exchange: Exchange<T>)
    requires
        exchange matches Exchange::Replied(reply) ==> reply.data is None,
    ensures
        gql_outcome(exchange) is Err,
{
}

/// An account with wallets has exactly one default wallet.
pub proof fn one_default_wallet(wallets: Seq<Wallet>)
    requires
        wallets.len() > 0,
    ensures
        exists|i: int| is_default_wallet(wallets, i),
        forall|i: int, j: int|
            is_default_wallet(wallets, i) && is_default_wallet(wallets, j) ==> i == j,
{
    if has_btc_wallet(wallets) {
        let k = choose|k: int| 0 <= k < wallets.len() && is_btc(#[trigger] wallets[k]);
        let i = first_btc_wallet(wallets, k);
        assert(is_default_wallet(wallets, i));
    } else {
        assert(is_default_wallet(wallets, 0));
    }
}

/// The first BTC wallet, given one.
proof fn first_btc_wallet(wallets: Seq<Wallet>, k: int) -> (i: int)
    requires
        0 <= k < wallets.len(),
        is_btc(wallets[k]),
    ensures
        0 <= i < wallets.len(),
        is_btc(wallets[i]),
        forall|j: int| 0 <= j < i ==> !is_btc(#[trigger] wallets[j]),
    decreases k,
{
    if forall|j: int| 0 <= j < k ==> !is_btc(#[trigger] wallets[j]) {
        k
    } else {
        let j = choose|j: int| 0 <= j < k && is_btc(#[trigger] wallets[j]);
        first_btc_wallet(wallets, j)
    }
}

/// How far a query has come that has failed the given number of times.
pub open spec fn after_failures(failures: nat) -> Retry
    decreases failures,
{
    if failures == 0 {
        Retry { attempts: 0, backoff: 1000 }
    } else {
        after_failures((failures - 1) as nat).failed()
    }
}

/// A query that keeps failing is made again after its first three failures and
/// given up after the fourth; the delays begin with one second, double each
/// time and never exceed thirty seconds.
pub proof fn failures_are_retried_with_backoff(failures: nat)
    requires
        failures <= MAX_RETRIES,
    ensures
        after_failures(failures).attempts == failures,
        after_failures(failures).attempts < MAX_RETRIES <==> failures < 3,
        after_failures(failures).backoff == delay_after(1000, 30000, failures),
        after_failures(failures).backoff <= 30000,
    decreases failures,
{
    if failures > 0 {
        failures_are_retried_with_backoff((failures - 1) as nat);
    }
}

} // verus!
