//! Blink as the payment backend of a mint.
//!
//! Each operation of the backend is a decision before the exchange with Blink
//! and one after it. The exchange itself is made by whoever runs the backend.

use vstd::prelude::*;

use crate::amount::{msat_ceil, msat_to_sat_ceil, sat_amount, Amount, AmountView, CurrencyUnit};
use crate::blink::rest::{
    asks_in_wallet, gql_outcome, is_default_wallet, parsed_url, status_by_hash_view,
    status_by_request_view, text_or_empty, wallets_request_view, BlinkClient, BlinkClientView,
    BlinkError, BlinkErrorView, Exchange, HttpRequest, InvoiceDetails, RequestStep, Wallet,
    WalletOperation, WalletOperationView, WalletStep,
};
use crate::blink::ws::{default_ws_config, websocket_url, WSClient, WSClientView};
use crate::bolt11::{decoded_bolt11, Bolt11Invoice};
use crate::json::{Json, JsonView};
use crate::payment::{
    refused, Bolt11Settings, CreateIncomingPaymentResponse, CreateIncomingPaymentResponseView,
    PaymentError, PaymentErrorView, Event, IncomingPaymentOptions, MakePaymentResponse, MakePaymentResponseView,
    MeltQuoteState, OutgoingPaymentOptions, PaymentIdentifier, PaymentIdentifierView,
    PaymentQuoteResponse, PaymentQuoteResponseView, SettingsResponse, WaitPaymentResponse,
    WaitPaymentResponseView,
};
use crate::payment_hash::{
    decode_payment_hash, encode_payment_hash, hex_bytes, hex_text, hex_writes_back,
    is_payment_hash,
};
use crate::settings::BackendConfig;
use crate::text::{
    ascii_lower, ascii_upper, contains, contains_text, eq_ignore_ascii_case, same_ignoring_case, same_text,
    to_ascii_upper, to_lowercase, unicode_lowercase, upper_agrees_with_lower,
};

verus! {

// ---------------------------------------------------------------------------
// Setup
// ---------------------------------------------------------------------------

/// Blink Lightning backend.
#[derive(Clone, Debug)]
pub struct BlinkBackend {
    pub client: BlinkClient,
}

/// Why a backend could not be set up.
#[derive(Clone, Debug)]
pub enum SetupError {
    /// No API key is configured.
    MissingApiKey,
    /// Blink failed.
    Client(BlinkError),
}

/// Why a backend could not be set up, as a value.
pub enum SetupErrorView {
    MissingApiKey,
    Client(BlinkErrorView),
}

impl View for SetupError {
    type V = SetupErrorView;

    open spec fn view(&self) -> SetupErrorView {
        match self {
            SetupError::MissingApiKey => SetupErrorView::MissingApiKey,
            SetupError::Client(e) => SetupErrorView::Client(e@),
        }
    }
}

impl SetupErrorView {
    /// The message of the error.
    pub open spec fn text(self) -> Seq<char> {
        match self {
            SetupErrorView::MissingApiKey => "Blink API key is required (set BLINK_API_KEY)"@,
            SetupErrorView::Client(e) => e.text(),
        }
    }
}

impl SetupError {
    /// The message of the error.
    pub fn message(&self) -> (r: String)
        ensures
            r@ == self@.text(),
    {
        match self {
            SetupError::MissingApiKey => {
                "Blink API key is required (set BLINK_API_KEY)".to_string()
            },
            SetupError::Client(e) => e.message(),
        }
    }
}

/// What remains to be done to set a backend up.
#[derive(Debug)]
pub enum SetupStep {
    /// Nothing.
    Ready(BlinkBackend),
    /// Blink has to be asked for the wallets of the account.
    Query(BlinkBackend, HttpRequest),
}

/// Whether a setup ended in the given error.
pub open spec fn setup_fails_with<T>(r: Result<T, SetupError>, e: SetupErrorView) -> bool {
    r matches Err(x) && x@ == e
}

/// Whether a setup goes on with the given client: it is complete if the client
/// has a wallet, and asks for the wallets of the account if it has none.
pub open spec fn setup_goes_on(r: Result<SetupStep, SetupError>, client: BlinkClientView) -> bool {
    if client.wallet_id.len() > 0 {
        r matches Ok(SetupStep::Ready(backend)) && backend.client@ == client
    } else {
        r matches Ok(SetupStep::Query(backend, request)) && backend.client@ == client && request@
            == wallets_request_view(client)
    }
}

impl BlinkBackend {
    /// Begins to set a backend up: validates the API key and the endpoint, and
    /// finds out whether the account's default wallet has to be asked for.
    pub fn new(config: &BackendConfig) -> (r: Result<SetupStep, SetupError>)
        ensures
            if config.api_key@.len() == 0 {
                setup_fails_with(r, SetupErrorView::MissingApiKey)
            } else {
                match parsed_url(config.api_url@) {
                    Ok(url) => setup_goes_on(
                        r,
                        BlinkClientView {
                            base_url: url,
                            api_key: config.api_key@,
                            wallet_id: config.wallet_id@,
                        },
                    ),
                    Err(e) => setup_fails_with(
                        r,
                        SetupErrorView::Client(BlinkErrorView::InvalidUrl(e)),
                    ),
                }
            },
    {
        if config.api_key.as_str().is_empty() {
            return Err(SetupError::MissingApiKey);
        }
        BlinkBackend::with_client(BlinkClient::new(config))
    }

    /// Begins to set a backend up with a client that has been created, or could
    /// not be.
    pub fn with_client(client: Result<BlinkClient, BlinkError>) -> (r: Result<
        SetupStep,
        SetupError,
    >)
        ensures
            match client {
                Ok(client) => setup_goes_on(r, client@),
                Err(e) => setup_fails_with(r, SetupErrorView::Client(e@)),
            },
    {
        match client {
            Ok(client) => match client.resolve_wallet_id() {
                WalletStep::Use(_) => Ok(SetupStep::Ready(BlinkBackend { client })),
                WalletStep::Query(request) => Ok(
                    SetupStep::Query(BlinkBackend { client }, request),
                ),
            },
            Err(e) => Err(SetupError::Client(e)),
        }
    }

    /// Completes the setup with the default wallet of the account.
    pub fn with_default_wallet(self, exchange: Exchange<Vec<Wallet>>) -> (r: Result<
        BlinkBackend,
        SetupError,
    >)
        ensures
            match gql_outcome(exchange) {
                Ok(wallets) => if wallets@.len() == 0 {
                    setup_fails_with(r, SetupErrorView::Client(BlinkErrorView::NoWallet))
                } else {
                    r matches Ok(backend) && exists|i: int| #[trigger]
                        is_default_wallet(wallets@, i) && backend.client@ == (BlinkClientView {
                            wallet_id: wallets@[i].id@,
                            ..self.client@
                        })
                },
                Err(e) => setup_fails_with(r, SetupErrorView::Client(e)),
            },
    {
        let mut backend = self;
        match BlinkClient::get_default_wallet(exchange) {
            Ok(wallet) => {
                backend.client.set_wallet_id(wallet.id);
                Ok(backend)
            },
            Err(e) => Err(SetupError::Client(e)),
        }
    }
}

// ---------------------------------------------------------------------------
// Payment hashes, amounts and states
// ---------------------------------------------------------------------------

/// The number of satoshis that an invoice is paid with: its amount rounded up;
/// none if the invoice leaves it open or sets it to nothing.
pub open spec fn payable_sats(amount_msat: Option<u64>) -> Option<u64> {
    match amount_msat {
        Some(msat) => if msat > 0 {
            Some(msat_ceil(msat))
        } else {
            None
        },
        None => None,
    }
}

/// The melt quote state that a Blink payment status stands for, in letters of
/// either case.
pub open spec fn melt_state_of(status: Seq<char>) -> MeltQuoteState {
    let s = ascii_upper(status);
    if s == "SUCCESS"@ || s == "PAID"@ {
        MeltQuoteState::Paid
    } else if s == "PENDING"@ {
        MeltQuoteState::Pending
    } else if s == "FAILURE"@ || s == "FAILED"@ || s == "EXPIRED"@ {
        MeltQuoteState::Failed
    } else {
        MeltQuoteState::Unknown
    }
}

/// The number of satoshis of an invoice that may be unreadable or leave it open:
/// nothing then.
pub open spec fn request_sats(payment_request: Seq<char>) -> u64 {
    match decoded_bolt11(payment_request) {
        Ok((Some(msat), _)) => msat_ceil(msat),
        _ => 0,
    }
}

/// The number of satoshis of an invoice; nothing if it is unreadable or leaves
/// it open.
fn amount_of_request(payment_request: &str) -> (r: u64)
    ensures
        r == request_sats(payment_request@),
{
    match Bolt11Invoice::parse(payment_request) {
        Ok(invoice) => match invoice.amount_msat {
            Some(msat) => msat_to_sat_ceil(msat),
            None => 0,
        },
        Err(_) => 0,
    }
}

impl BlinkBackend {
    /// Decodes a Blink hex payment hash into raw bytes.
    pub fn payment_hash_bytes(hash_hex: &str) -> (r: Result<[u8; 32], PaymentError>)
        ensures
            if is_payment_hash(hash_hex@) {
                r matches Ok(hash) && hash@ == hex_bytes(hash_hex@)
            } else {
                refused(r, PaymentErrorView::InvalidHash)
            },
    {
        match decode_payment_hash(hash_hex) {
            Some(hash) => Ok(hash),
            None => Err(PaymentError::InvalidHash),
        }
    }

    /// The payment hash that a payment is looked up by.
    fn payment_hash(payment_identifier: &PaymentIdentifier) -> (r: Result<
        &[u8; 32],
        PaymentError,
    >)
        ensures
            match payment_identifier@ {
                PaymentIdentifierView::PaymentHash(hash) => r matches Ok(h) && h@ == hash,
                _ => refused(
                    r,
                    PaymentErrorView::Custom("Unsupported payment identifier type"@),
                ),
            },
    {
        match payment_identifier {
            PaymentIdentifier::PaymentHash(hash) => Ok(hash),
            _ => Err(PaymentError::Custom("Unsupported payment identifier type".to_string())),
        }
    }

    /// Encodes a payment identifier as a Blink hex payment hash.
    pub fn payment_hash_hex(payment_identifier: &PaymentIdentifier) -> (r: Result<
        String,
        PaymentError,
    >)
        ensures
            match payment_identifier@ {
                PaymentIdentifierView::PaymentHash(hash) => r matches Ok(s) && s@ == hex_text(hash),
                _ => refused(
                    r,
                    PaymentErrorView::Custom("Unsupported payment identifier type"@),
                ),
            },
    {
        match BlinkBackend::payment_hash(payment_identifier) {
            Ok(hash) => Ok(encode_payment_hash(hash)),
            Err(e) => Err(e),
        }
    }

    /// The invoice amount in satoshis.
    pub fn invoice_amount_sats(invoice: &Bolt11Invoice) -> (r: Result<u64, PaymentError>)
        ensures
            match payable_sats(invoice.amount_msat) {
                Some(sats) => r == Ok::<u64, PaymentError>(sats),
                None => refused(r, PaymentErrorView::AmountMismatch),
            },
    {
        match invoice.amount_msat {
            Some(msat) => {
                let sats: u64 = msat_to_sat_ceil(msat);
                if sats == 0 {
                    return Err(PaymentError::AmountMismatch);
                }
                Ok(sats)
            },
            None => Err(PaymentError::AmountMismatch),
        }
    }

    /// Maps a Blink payment status to a melt quote state.
    pub fn melt_state(status: &str) -> (r: MeltQuoteState)
        ensures
            r == melt_state_of(status@),
    {
        let s = to_ascii_upper(status);
        let s = s.as_str();
        if same_text(s, "SUCCESS") || same_text(s, "PAID") {
            MeltQuoteState::Paid
        } else if same_text(s, "PENDING") {
            MeltQuoteState::Pending
        } else if same_text(s, "FAILURE") || same_text(s, "FAILED") || same_text(s, "EXPIRED") {
            MeltQuoteState::Failed
        } else {
            MeltQuoteState::Unknown
        }
    }
}

// ---------------------------------------------------------------------------
// Updates
// ---------------------------------------------------------------------------

/// What stands under a key of a JSON value that may be absent.
pub open spec fn under(json: Option<JsonView>, key: Seq<char>) -> Option<JsonView> {
    match json {
        Some(json) => json.field(key),
        None => None,
    }
}

/// The text of a JSON value that may be absent.
pub open spec fn text_at(json: Option<JsonView>) -> Option<Seq<char>> {
    match json {
        Some(json) => json.text(),
        None => None,
    }
}

/// The update that a message of the subscription carries.
pub open spec fn update_of(message: JsonView) -> Option<JsonView> {
    under(under(under(message.field("payload"@), "data"@), "myUpdates"@), "update"@)
}

/// The status of an update; empty if it has none.
pub open spec fn status_of(update: JsonView) -> Seq<char> {
    match text_at(update.field("status"@)) {
        Some(s) => s,
        None => Seq::empty(),
    }
}

/// The payment hash of the transaction of an update, as it is written there.
pub open spec fn hash_of(update: JsonView) -> Option<Seq<char>> {
    text_at(under(under(update.field("transaction"@), "initiationVia"@), "paymentHash"@))
}

/// The number of satoshis that the transaction of an update settles; nothing if
/// it does not say, or says less than nothing.
pub open spec fn settled_sats(update: JsonView) -> u64 {
    match under(update.field("transaction"@), "settlementAmount"@) {
        Some(amount) => match amount.integer() {
            Some(n) => if n > 0 {
                n as u64
            } else {
                0
            },
            None => 0,
        },
        None => 0,
    }
}

/// The payment that a message of the subscription reports: that of an update
/// which is paid and has a payment hash; none otherwise.
pub open spec fn received_payment(message: JsonView) -> Option<WaitPaymentResponseView> {
    match update_of(message) {
        Some(update) => match hash_of(update) {
            Some(hash) => if same_ignoring_case(status_of(update), "PAID"@) && is_payment_hash(
                hash,
            ) {
                Some(
                    WaitPaymentResponseView {
                        payment_identifier: PaymentIdentifierView::PaymentHash(hex_bytes(hash)),
                        payment_amount: sat_amount(settled_sats(update)),
                        payment_id: match text_at(under(update.field("transaction"@), "id"@)) {
                            Some(id) => id,
                            None => hash,
                        },
                    },
                )
            } else {
                None
            },
            None => None,
        },
        None => None,
    }
}

/// What stands under a key of a JSON value that may be absent.
pub(crate) fn get_under<'a>(json: Option<&'a Json>, key: &str) -> (r: Option<&'a Json>)
    ensures
        match r {
            Some(x) => json matches Some(j) && j@.field(key@) == Some(x@),
            None => json matches Some(j) ==> j@.field(key@) is None,
        },
{
    match json {
        Some(json) => json.get(key),
        None => None,
    }
}

/// The text of a JSON value that may be absent.
pub(crate) fn str_of<'a>(json: Option<&'a Json>) -> (r: Option<&'a str>)
    ensures
        match r {
            Some(s) => json matches Some(j) && j@.text() == Some(s@),
            None => json matches Some(j) ==> j@.text() is None,
        },
{
    match json {
        Some(json) => json.as_str(),
        None => None,
    }
}

/// The number of satoshis of a settlement.
pub(crate) fn settlement(amount: Option<&Json>) -> (r: u64)
    ensures
        r == (match amount {
            Some(a) => match a@.integer() {
                Some(n) => if n > 0 {
                    n as u64
                } else {
                    0
                },
                None => 0,
            },
            None => 0,
        }),
{
    match amount {
        Some(amount) => match amount.as_i64() {
            Some(n) => if n > 0 {
                n as u64
            } else {
                0
            },
            None => 0,
        },
        None => 0,
    }
}

impl BlinkBackend {
    /// Maps a Blink `myUpdates` message to a payment event.
    pub fn ws_event_to_cdk(v: &Json) -> (r: Option<Event>)
        ensures
            match received_payment(v@) {
                Some(payment) => r matches Some(Event::PaymentReceived(p)) && p@ == payment,
                None => r is None,
            },
    {
        let update = get_under(
            get_under(get_under(v.get("payload"), "data"), "myUpdates"),
            "update",
        );
        let update = match update {
            Some(update) => update,
            None => {
                return None;
            },
        };
        let status = match str_of(update.get("status")) {
            Some(s) => s,
            None => "",
        };
        proof {
            reveal_strlit("");
            assert(""@ =~= Seq::<char>::empty());
        }
        if !eq_ignore_ascii_case(status, "PAID") {
            return None;
        }
        let txn = match update.get("transaction") {
            Some(txn) => txn,
            None => {
                return None;
            },
        };
        let payment_hash = match str_of(get_under(txn.get("initiationVia"), "paymentHash")) {
            Some(hash) => hash,
            None => {
                return None;
            },
        };
        let hash = match decode_payment_hash(payment_hash) {
            Some(hash) => hash,
            None => {
                return None;
            },
        };
        let sats: u64 = settlement(txn.get("settlementAmount"));
        let payment_id = match str_of(txn.get("id")) {
            Some(id) => id,
            None => payment_hash,
        };
        Some(
            Event::PaymentReceived(
                WaitPaymentResponse {
                    payment_identifier: PaymentIdentifier::PaymentHash(hash),
                    payment_amount: Amount::new(sats, CurrencyUnit::Sat),
                    payment_id: payment_id.to_string(),
                },
            ),
        )
    }
}

// ---------------------------------------------------------------------------
// Operations
// ---------------------------------------------------------------------------

/// An invoice that Blink is to create.
#[derive(Clone, Debug)]
pub struct InvoiceOrder {
    pub amount_sats: u64,
    pub memo: String,
    /// When the invoice expires, in seconds of Unix time.
    pub expiry: Option<u64>,
}

/// A payment that Blink is to quote or to make.
#[derive(Clone, Debug)]
pub struct PaymentOrder {
    pub amount_sats: u64,
    /// The invoice that is paid.
    pub bolt11: String,
    pub payment_hash: [u8; 32],
}

/// What follows the sending of a payment.
#[derive(Debug)]
pub enum PaymentStep {
    /// The payment succeeded with this status: its preimage is to be asked for by
    /// this request.
    FetchProof(String, HttpRequest),
    /// The payment has not succeeded yet, or failed.
    Done(MakePaymentResponse),
}

/// The fee that is assumed when Blink does not tell it: one percent of the
/// amount, and one satoshi at least.
pub open spec fn fallback_fee(amount_sats: u64) -> u64 {
    if amount_sats >= 100 {
        (amount_sats / 100) as u64
    } else {
        1
    }
}

/// The preimage as a proof of payment, unless it is empty.
pub open spec fn proof_of(preimage: Seq<char>) -> Option<Seq<char>> {
    if preimage.len() > 0 {
        Some(preimage)
    } else {
        None
    }
}

/// What a payment error means, given its message in lower case.
pub open spec fn payment_error_of(message: Seq<char>, e: BlinkErrorView) -> PaymentErrorView {
    if contains_text(message, "already paid"@) {
        PaymentErrorView::InvoiceAlreadyPaid
    } else if contains_text(message, "pending"@) {
        PaymentErrorView::InvoicePaymentPending
    } else {
        PaymentErrorView::Lightning(e)
    }
}

/// What became of the payment of an order.
pub open spec fn payment_made(
    order: PaymentOrder,
    unit: CurrencyUnit,
    status: Seq<char>,
    preimage: Option<Seq<char>>,
) -> MakePaymentResponseView {
    MakePaymentResponseView {
        payment_lookup_id: PaymentIdentifierView::PaymentHash(order.payment_hash@),
        payment_proof: match preimage {
            Some(preimage) => proof_of(preimage),
            None => None,
        },
        status: melt_state_of(status),
        total_spent: AmountView { value: order.amount_sats, unit: unit@ },
    }
}

/// Whether a payment status is that of a success.
pub open spec fn is_success(status: Seq<char>) -> bool {
    same_ignoring_case(status, "SUCCESS"@)
}

/// What an incoming payment with the given status has brought.
pub open spec fn incoming_payments(
    payment_identifier: PaymentIdentifierView,
    status: Seq<char>,
    amount_sats: u64,
    preimage: Seq<char>,
) -> Seq<WaitPaymentResponseView> {
    if same_ignoring_case(status, "PAID"@) {
        seq![
            WaitPaymentResponseView {
                payment_identifier,
                payment_amount: sat_amount(amount_sats),
                payment_id: preimage,
            },
        ]
    } else {
        Seq::empty()
    }
}

/// What has become of an outgoing payment with the given status.
pub open spec fn outgoing_payment(
    payment_identifier: PaymentIdentifierView,
    status: Seq<char>,
    amount_sats: u64,
    preimage: Seq<char>,
) -> MakePaymentResponseView {
    let paid = melt_state_of(status) == MeltQuoteState::Paid;
    MakePaymentResponseView {
        payment_lookup_id: payment_identifier,
        payment_proof: if paid {
            proof_of(preimage)
        } else {
            None
        },
        status: melt_state_of(status),
        total_spent: sat_amount(
            if paid {
                amount_sats
            } else {
                0
            },
        ),
    }
}

/// The payments, as values.
pub open spec fn payment_views(payments: Seq<WaitPaymentResponse>) -> Seq<WaitPaymentResponseView> {
    payments.map_values(|p: WaitPaymentResponse| p@)
}

/// The preimage as a proof of payment, unless it is empty.
fn proof_from(preimage: String) -> (r: Option<String>)
    ensures
        crate::payment::text_of(r) == proof_of(preimage@),
{
    if preimage.as_str().is_empty() {
        None
    } else {
        Some(preimage)
    }
}

impl BlinkBackend {
    /// The capabilities of the backend: BOLT11 invoices in satoshis, with a
    /// description, paid at once and with an amount; nothing else.
    pub fn get_settings(&self) -> (r: SettingsResponse)
        ensures
            r.unit@ == "sat"@,
            r.bolt11 == Some(
                Bolt11Settings { mpp: false, amountless: false, invoice_description: true },
            ),
            r.bolt12 is None,
            r.onchain is None,
            r.custom@.len() == 0,
    {
        SettingsResponse {
            unit: "sat".to_string(),
            bolt11: Some(
                Bolt11Settings { mpp: false, amountless: false, invoice_description: true },
            ),
            bolt12: None,
            onchain: None,
            custom: Vec::new(),
        }
    }

    /// The invoice that Blink is to create for an incoming payment.
    pub fn create_incoming_payment_request(options: IncomingPaymentOptions) -> (r: Result<
        InvoiceOrder,
        PaymentError,
    >)
        ensures
            match options {
                IncomingPaymentOptions::Bolt11(opts) => match opts.amount@.sats() {
                    Some(sats) => if sats == 0 {
                        refused(r, PaymentErrorView::AmountMismatch)
                    } else {
                        r matches Ok(order) && order.amount_sats == sats && order.memo@
                            == text_or_empty(opts.description) && order.expiry == opts.unix_expiry
                    },
                    None => refused(r, PaymentErrorView::Amount),
                },
                _ => refused(r, PaymentErrorView::UnsupportedPaymentOption),
            },
    {
        let opts = match options {
            IncomingPaymentOptions::Bolt11(opts) => opts,
            _ => {
                return Err(PaymentError::UnsupportedPaymentOption);
            },
        };
        let amount_sats: u64 = match opts.amount.to_sat() {
            Some(sats) => sats,
            None => {
                return Err(PaymentError::Amount);
            },
        };
        if amount_sats == 0 {
            return Err(PaymentError::AmountMismatch);
        }
        let memo = match opts.description {
            Some(description) => description,
            None => String::new(),
        };
        Ok(InvoiceOrder { amount_sats, memo, expiry: opts.unix_expiry })
    }

    /// What is to be sent to create the invoice of an order, given what came of the
    /// question for the account's wallets if it has been asked.
    pub fn invoice_request(
        &self,
        order: &InvoiceOrder,
        wallets: Option<Exchange<Vec<Wallet>>>,
    ) -> (r: Result<RequestStep, BlinkError>)
        ensures
            asks_in_wallet(
                r,
                self.client@,
                WalletOperationView::CreateInvoice {
                    amount: order.amount_sats,
                    memo: order.memo@,
                },
                wallets,
            ),
    {
        self.client.wallet_request(
            WalletOperation::CreateInvoice {
                amount: order.amount_sats,
                memo: order.memo.as_str(),
            },
            wallets,
        )
    }

    /// The answer to the request for an incoming payment, once Blink has created
    /// the invoice or refused to.
    pub fn incoming_payment_created(
        order: InvoiceOrder,
        outcome: Result<InvoiceDetails, BlinkError>,
    ) -> (r: Result<CreateIncomingPaymentResponse, PaymentError>)
        ensures
            match outcome {
                Ok(invoice) => if is_payment_hash(invoice.payment_hash@) {
                    r matches Ok(response) && response@ == (CreateIncomingPaymentResponseView {
                        request_lookup_id: PaymentIdentifierView::PaymentHash(
                            hex_bytes(invoice.payment_hash@),
                        ),
                        request: invoice.payment_request@,
                        expiry: order.expiry,
                        extra_json: None,
                    })
                } else {
                    refused(r, PaymentErrorView::InvalidHash)
                },
                Err(e) => refused(r, PaymentErrorView::Lightning(e@)),
            },
    {
        let invoice = match outcome {
            Ok(invoice) => invoice,
            Err(e) => {
                return Err(PaymentError::Lightning(e));
            },
        };
        let payment_hash = match BlinkBackend::payment_hash_bytes(invoice.payment_hash.as_str()) {
            Ok(hash) => hash,
            Err(e) => {
                return Err(e);
            },
        };
        Ok(
            CreateIncomingPaymentResponse {
                request_lookup_id: PaymentIdentifier::PaymentHash(payment_hash),
                request: invoice.payment_request,
                expiry: order.expiry,
                extra_json: None,
            },
        )
    }

    /// The payment that an outgoing payment request stands for.
    pub fn payment_order(options: OutgoingPaymentOptions) -> (r: Result<PaymentOrder, PaymentError>)
        ensures
            match options {
                OutgoingPaymentOptions::Bolt11(invoice) => match payable_sats(
                    invoice.amount_msat,
                ) {
                    Some(sats) => r matches Ok(order) && order.amount_sats == sats && order.bolt11@
                        == invoice.text@ && order.payment_hash@ == invoice.payment_hash@,
                    None => refused(r, PaymentErrorView::AmountMismatch),
                },
                _ => refused(r, PaymentErrorView::UnsupportedPaymentOption),
            },
    {
        let invoice = match options {
            OutgoingPaymentOptions::Bolt11(invoice) => invoice,
            _ => {
                return Err(PaymentError::UnsupportedPaymentOption);
            },
        };
        match BlinkBackend::invoice_amount_sats(&invoice) {
            Ok(amount_sats) => Ok(
                PaymentOrder {
                    amount_sats,
                    bolt11: invoice.text,
                    payment_hash: invoice.payment_hash,
                },
            ),
            Err(e) => Err(e),
        }
    }

    /// What is to be sent to probe the routing fee of an order, given what came of
    /// the question for the account's wallets if it has been asked.
    pub fn probe_request(
        &self,
        order: &PaymentOrder,
        wallets: Option<Exchange<Vec<Wallet>>>,
    ) -> (r: Result<RequestStep, BlinkError>)
        ensures
            asks_in_wallet(
                r,
                self.client@,
                WalletOperationView::ProbeFee { bolt11: order.bolt11@ },
                wallets,
            ),
    {
        self.client.wallet_request(
            WalletOperation::ProbeFee { bolt11: order.bolt11.as_str() },
            wallets,
        )
    }

    /// What is to be sent to make the payment of an order, given what came of the
    /// question for the account's wallets if it has been asked.
    pub fn payment_request(
        &self,
        order: &PaymentOrder,
        wallets: Option<Exchange<Vec<Wallet>>>,
    ) -> (r: Result<RequestStep, BlinkError>)
        ensures
            asks_in_wallet(
                r,
                self.client@,
                WalletOperationView::MakePayment { bolt11: order.bolt11@ },
                wallets,
            ),
    {
        self.client.wallet_request(
            WalletOperation::MakePayment { bolt11: order.bolt11.as_str() },
            wallets,
        )
    }

    /// The quote for an order: with the fee that Blink has probed, or with a
    /// conservative estimate if the probe failed.
    pub fn get_payment_quote(
        order: &PaymentOrder,
        unit: &CurrencyUnit,
        fee: Result<u64, BlinkError>,
    ) -> (r: PaymentQuoteResponse)
        ensures
            r@ == (PaymentQuoteResponseView {
                request_lookup_id: Some(
                    PaymentIdentifierView::PaymentHash(order.payment_hash@),
                ),
                amount: AmountView { value: order.amount_sats, unit: unit@ },
                fee: AmountView {
                    value: match fee {
                        Ok(fee) => fee,
                        Err(_) => fallback_fee(order.amount_sats),
                    },
                    unit: unit@,
                },
                state: MeltQuoteState::Unpaid,
                extra_json: None,
                estimated_blocks: None,
                fee_options: None,
            }),
    {
        let fee_sats: u64 = match fee {
            Ok(fee) => fee,
            Err(_) => {
                let percent: u64 = order.amount_sats / 100;
                if percent > 1 {
                    percent
                } else {
                    1
                }
            },
        };
        PaymentQuoteResponse {
            request_lookup_id: Some(PaymentIdentifier::PaymentHash(order.payment_hash)),
            amount: Amount::new(order.amount_sats, unit.copy()),
            fee: Amount::new(fee_sats, unit.copy()),
            state: MeltQuoteState::Unpaid,
            extra_json: None,
            estimated_blocks: None,
            fee_options: None,
        }
    }

    /// What a payment error means, given its message in lower case.
    pub fn payment_error(message: &str, e: BlinkError) -> (r: PaymentError)
        ensures
            r@ == payment_error_of(message@, e@),
    {
        if contains(message, "already paid") {
            PaymentError::InvoiceAlreadyPaid
        } else if contains(message, "pending") {
            PaymentError::InvoicePaymentPending
        } else {
            PaymentError::Lightning(e)
        }
    }

    /// What follows the sending of a payment: its failure, the request for the
    /// preimage if the payment succeeded, or the answer if it did not yet.
    pub fn make_payment(
        &self,
        order: &PaymentOrder,
        unit: &CurrencyUnit,
        outcome: Result<String, BlinkError>,
    ) -> (r: Result<PaymentStep, PaymentError>)
        ensures
            match outcome {
                Ok(status) => if is_success(status@) {
                    r matches Ok(PaymentStep::FetchProof(s, request)) && s@ == status@
                        && request@ == status_by_request_view(self.client@, order.bolt11@)
                } else {
                    r matches Ok(PaymentStep::Done(response)) && response@ == payment_made(
                        *order,
                        *unit,
                        status@,
                        None,
                    )
                },
                Err(e) => refused(r, payment_error_of(unicode_lowercase(e@.text()), e@)),
            },
    {
        match outcome {
            Ok(status) => if eq_ignore_ascii_case(status.as_str(), "SUCCESS") {
                let request = self.client.status_by_request_request(order.bolt11.as_str());
                Ok(PaymentStep::FetchProof(status, request))
            } else {
                Ok(
                    PaymentStep::Done(
                        BlinkBackend::payment_response(order, unit, status.as_str(), None),
                    ),
                )
            },
            Err(e) => {
                let message = to_lowercase(e.message().as_str());
                Err(BlinkBackend::payment_error(message.as_str(), e))
            },
        }
    }

    /// The answer to a payment that succeeded, once its preimage has been asked
    /// for: without a proof if Blink could not tell it.
    pub fn payment_proved(
        order: &PaymentOrder,
        unit: &CurrencyUnit,
        status: &str,
        outcome: Result<(String, String, String), BlinkError>,
    ) -> (r: MakePaymentResponse)
        ensures
            r@ == payment_made(
                *order,
                *unit,
                status@,
                match outcome {
                    Ok((_, _, preimage)) => Some(preimage@),
                    Err(_) => None,
                },
            ),
    {
        let preimage = match outcome {
            Ok((_, _, preimage)) => Some(preimage),
            Err(_) => None,
        };
        BlinkBackend::payment_response(order, unit, status, preimage)
    }

    /// What became of the payment of an order.
    fn payment_response(
        order: &PaymentOrder,
        unit: &CurrencyUnit,
        status: &str,
        preimage: Option<String>,
    ) -> (r: MakePaymentResponse)
        ensures
            r@ == payment_made(*order, *unit, status@, crate::payment::text_of(preimage)),
    {
        let payment_proof = match preimage {
            Some(preimage) => proof_from(preimage),
            None => None,
        };
        MakePaymentResponse {
            payment_lookup_id: PaymentIdentifier::PaymentHash(order.payment_hash),
            payment_proof,
            status: BlinkBackend::melt_state(status),
            total_spent: Amount::new(order.amount_sats, unit.copy()),
        }
    }

    /// The request for the status of a payment, which is asked for by its payment
    /// hash.
    pub fn status_request(&self, payment_identifier: &PaymentIdentifier) -> (r: Result<
        HttpRequest,
        PaymentError,
    >)
        ensures
            match payment_identifier@ {
                PaymentIdentifierView::PaymentHash(hash) => r matches Ok(request) && request@
                    == status_by_hash_view(self.client@, hex_text(hash)),
                _ => refused(
                    r,
                    PaymentErrorView::Custom("Unsupported payment identifier type"@),
                ),
            },
    {
        match BlinkBackend::payment_hash_hex(payment_identifier) {
            Ok(hash) => Ok(self.client.status_by_hash_request(hash.as_str())),
            Err(e) => Err(e),
        }
    }

    /// What an incoming payment with the given status has brought.
    pub fn incoming_payment(
        payment_hash: &[u8; 32],
        status: &str,
        amount_sats: u64,
        preimage: String,
    ) -> (r: Vec<WaitPaymentResponse>)
        ensures
            payment_views(r@) == incoming_payments(
                PaymentIdentifierView::PaymentHash(payment_hash@),
                status@,
                amount_sats,
                preimage@,
            ),
    {
        let mut r: Vec<WaitPaymentResponse> = Vec::new();
        if eq_ignore_ascii_case(status, "PAID") {
            r.push(
                WaitPaymentResponse {
                    payment_identifier: PaymentIdentifier::PaymentHash(*payment_hash),
                    payment_amount: Amount::new(amount_sats, CurrencyUnit::Sat),
                    payment_id: preimage,
                },
            );
        }
        assert(payment_views(r@) =~= incoming_payments(
            PaymentIdentifierView::PaymentHash(payment_hash@),
            status@,
            amount_sats,
            preimage@,
        ));
        r
    }

    /// The answer to the question for an incoming payment, once Blink has told
    /// its status, request and preimage: the payment if it is paid, else nothing.
    /// A payment is asked for by its payment hash.
    pub fn check_incoming_payment_status(
        payment_identifier: &PaymentIdentifier,
        outcome: Result<(String, String, String), BlinkError>,
    ) -> (r: Result<Vec<WaitPaymentResponse>, PaymentError>)
        ensures
            match (payment_identifier@, outcome) {
                (PaymentIdentifierView::PaymentHash(_), Ok((status, request, preimage))) =>
                    r matches Ok(payments) && payment_views(payments@) == incoming_payments(
                    payment_identifier@,
                    status@,
                    request_sats(request@),
                    preimage@,
                ),
                (PaymentIdentifierView::PaymentHash(_), Err(e)) => refused(
                    r,
                    PaymentErrorView::Lightning(e@),
                ),
                _ => refused(
                    r,
                    PaymentErrorView::Custom("Unsupported payment identifier type"@),
                ),
            },
    {
        let payment_hash = match BlinkBackend::payment_hash(payment_identifier) {
            Ok(hash) => hash,
            Err(e) => {
                return Err(e);
            },
        };
        match outcome {
            Ok((status, request, preimage)) => {
                let amount_sats: u64 = amount_of_request(request.as_str());
                Ok(
                    BlinkBackend::incoming_payment(
                        payment_hash,
                        status.as_str(),
                        amount_sats,
                        preimage,
                    ),
                )
            },
            Err(e) => Err(PaymentError::Lightning(e)),
        }
    }

    /// What has become of an outgoing payment with the given status.
    pub fn outgoing_payment(
        payment_hash: &[u8; 32],
        status: &str,
        amount_sats: u64,
        preimage: String,
    ) -> (r: MakePaymentResponse)
        ensures
            r@ == outgoing_payment(
                PaymentIdentifierView::PaymentHash(payment_hash@),
                status@,
                amount_sats,
                preimage@,
            ),
    {
        let state = BlinkBackend::melt_state(status);
        let paid = state == MeltQuoteState::Paid;
        MakePaymentResponse {
            payment_lookup_id: PaymentIdentifier::PaymentHash(*payment_hash),
            payment_proof: if paid {
                proof_from(preimage)
            } else {
                None
            },
            status: state,
            total_spent: Amount::new(
                if paid {
                    amount_sats
                } else {
                    0
                },
                CurrencyUnit::Sat,
            ),
        }
    }

    /// The answer to the question for an outgoing payment, once Blink has told
    /// its status, request and preimage. A payment is asked for by its payment
    /// hash.
    pub fn check_outgoing_payment(
        payment_identifier: &PaymentIdentifier,
        outcome: Result<(String, String, String), BlinkError>,
    ) -> (r: Result<MakePaymentResponse, PaymentError>)
        ensures
            match (payment_identifier@, outcome) {
                (PaymentIdentifierView::PaymentHash(_), Ok((status, request, preimage))) =>
                    r matches Ok(response) && response@ == outgoing_payment(
                    payment_identifier@,
                    status@,
                    request_sats(request@),
                    preimage@,
                ),
                (PaymentIdentifierView::PaymentHash(_), Err(e)) => refused(
                    r,
                    PaymentErrorView::Lightning(e@),
                ),
                _ => refused(
                    r,
                    PaymentErrorView::Custom("Unsupported payment identifier type"@),
                ),
            },
    {
        let payment_hash = match BlinkBackend::payment_hash(payment_identifier) {
            Ok(hash) => hash,
            Err(e) => {
                return Err(e);
            },
        };
        match outcome {
            Ok((status, request, preimage)) => {
                let amount_sats: u64 = amount_of_request(request.as_str());
                Ok(
                    BlinkBackend::outgoing_payment(
                        payment_hash,
                        status.as_str(),
                        amount_sats,
                        preimage,
                    ),
                )
            },
            Err(e) => Err(PaymentError::Lightning(e)),
        }
    }
}

// ---------------------------------------------------------------------------
// Payment events
// ---------------------------------------------------------------------------

/// Marks that a payment event stream is active, for as long as it is.
#[derive(Debug, PartialEq, Eq, Structural)]
pub struct PaymentEventStreamActivity {
    pub active: bool,
}

/// How many streams are counted once one more is, with the wrap-around of the
/// counter.
pub open spec fn count_after_mark(count: usize) -> usize {
    if count < usize::MAX {
        (count + 1) as usize
    } else {
        0
    }
}

/// How many streams are counted once a mark is released: one less if it was
/// active, with the wrap-around of the counter.
pub open spec fn count_after_release(active: bool, count: usize) -> usize {
    if !active {
        count
    } else if count > 0 {
        (count - 1) as usize
    } else {
        usize::MAX
    }
}

impl PaymentEventStreamActivity {
    /// Marks a stream as active and counts it.
    pub fn new(active_streams: &mut usize) -> (r: PaymentEventStreamActivity)
        ensures
            r.active,
            *final(active_streams) == count_after_mark(*old(active_streams)),
    {
        *active_streams = if *active_streams < usize::MAX {
            *active_streams + 1
        } else {
            0
        };
        PaymentEventStreamActivity { active: true }
    }

    /// Ends the activity, and counts the stream no more. To end it again does
    /// nothing.
    pub fn deactivate(&mut self, active_streams: &mut usize)
        ensures
            !final(self).active,
            *final(active_streams) == count_after_release(old(self).active, *old(active_streams)),
    {
        if self.active {
            self.active = false;
            *active_streams = if *active_streams > 0 {
                *active_streams - 1
            } else {
                usize::MAX
            };
        }
    }
}

/// What has happened to a payment event stream.
#[derive(Debug)]
pub enum RelayEvent {
    /// The stream was cancelled.
    Cancelled,
    /// Nobody takes the events any more.
    ReceiverClosed,
    /// A message of the subscription came.
    Update(Json),
    /// The subscription is over.
    UpdatesEnded,
    /// The event was handed on.
    Sent,
    /// Nobody took the event.
    SendFailed,
}

/// What a payment event stream does next.
#[derive(Debug)]
pub enum RelayAction {
    /// Wait for the next event.
    Wait,
    /// Hand the event on.
    Send(Event),
    /// End, which ends the subscription too.
    Finish,
}

/// What a payment event stream does next, with the payment that it hands on.
pub enum RelayActionView {
    Wait,
    Send(WaitPaymentResponseView),
    Finish,
}

impl View for RelayAction {
    type V = RelayActionView;

    open spec fn view(&self) -> RelayActionView {
        match self {
            RelayAction::Wait => RelayActionView::Wait,
            RelayAction::Send(Event::PaymentReceived(payment)) => RelayActionView::Send(payment@),
            RelayAction::Finish => RelayActionView::Finish,
        }
    }
}

/// What a payment event stream does after an event: payments that messages of the
/// subscription report are handed on, other messages are passed over, and anything
/// else but a successful delivery ends the stream.
pub open spec fn relayed(event: RelayEvent) -> RelayActionView {
    match event {
        RelayEvent::Update(message) => match received_payment(message@) {
            Some(payment) => RelayActionView::Send(payment),
            None => RelayActionView::Wait,
        },
        RelayEvent::Sent => RelayActionView::Wait,
        RelayEvent::Cancelled | RelayEvent::ReceiverClosed | RelayEvent::UpdatesEnded
        | RelayEvent::SendFailed => RelayActionView::Finish,
    }
}

impl BlinkBackend {
    /// The subscription to payment updates.
    pub fn subscription(&self) -> (r: WSClient)
        ensures
            r@ == (WSClientView {
                url: websocket_url(self.client@.base_url),
                api_key: self.client@.api_key,
                cfg: default_ws_config(),
            }),
    {
        WSClient::new(self.client.api_url(), self.client.api_key_str())
    }

    /// Takes a payment event stream one step further: payments that messages of
    /// the subscription report are handed on, other messages are passed over, and
    /// anything else but a successful delivery ends the stream. The mark of the
    /// stream is released when it ends, and not before.
    pub fn wait_payment_event(
        event: RelayEvent,
        activity: &mut PaymentEventStreamActivity,
        active_streams: &mut usize,
    ) -> (r: RelayAction)
        ensures
            r@ == relayed(event),
            r is Finish ==> !final(activity).active && *final(active_streams)
                == count_after_release(old(activity).active, *old(active_streams)),
            !(r is Finish) ==> *final(activity) == *old(activity) && *final(active_streams)
                == *old(active_streams),
    {
        match event {
            RelayEvent::Update(message) => match BlinkBackend::ws_event_to_cdk(&message) {
                Some(event) => RelayAction::Send(event),
                None => RelayAction::Wait,
            },
            RelayEvent::Sent => RelayAction::Wait,
            RelayEvent::Cancelled | RelayEvent::ReceiverClosed | RelayEvent::UpdatesEnded
            | RelayEvent::SendFailed => {
                activity.deactivate(active_streams);
                RelayAction::Finish
            },
        }
    }

    /// Whether a payment event stream is active, given how many are.
    pub fn is_payment_event_stream_active(active_streams: usize) -> (r: bool)
        ensures
            r == (active_streams > 0),
    {
        active_streams > 0
    }
}

// ---------------------------------------------------------------------------
// Laws
// ---------------------------------------------------------------------------

/// The case of a status does not matter.
pub proof fn melt_state_ignores_case(a: Seq<char>, b: Seq<char>)
    requires
        same_ignoring_case(a, b),
    ensures
        melt_state_of(a) == melt_state_of(b),
{
    upper_agrees_with_lower(a, b);
}

/// A payment whose preimage is asked for is paid.
pub proof fn success_is_paid(status: Seq<char>)
    requires
        is_success(status),
    ensures
        melt_state_of(status) == MeltQuoteState::Paid,
{
    melt_state_ignores_case(status, "SUCCESS"@);
    reveal_strlit("SUCCESS");
    assert(ascii_upper("SUCCESS"@) =~= "SUCCESS"@);
}

/// The estimate of a fee is one percent of the amount, rounded down, and one
/// satoshi at least.
pub proof fn fallback_fee_is_one_percent(amount_sats: u64)
    ensures
        fallback_fee(amount_sats) >= 1,
        fallback_fee(amount_sats) >= amount_sats / 100,
        fallback_fee(amount_sats) == 1 || fallback_fee(amount_sats) == amount_sats / 100,
{
}

/// A proof of payment is never empty, and only a paid payment has one.
pub proof fn proof_only_when_paid(
    payment_identifier: PaymentIdentifierView,
    status: Seq<char>,
    amount_sats: u64,
    preimage: Seq<char>,
)
    ensures
        ({
            let r = outgoing_payment(payment_identifier, status, amount_sats, preimage);
            &&& r.payment_proof matches Some(proof) ==> r.status == MeltQuoteState::Paid && proof
                == preimage && preimage.len() > 0
            &&& r.status != MeltQuoteState::Paid ==> r.total_spent == sat_amount(0)
            &&& r.status == MeltQuoteState::Paid ==> r.total_spent == sat_amount(amount_sats)
        }),
{
}

/// An incoming payment is reported if and only if its status is paid, and then
/// once, for the identifier that was asked for.
pub proof fn reported_iff_paid(
    payment_identifier: PaymentIdentifierView,
    status: Seq<char>,
    amount_sats: u64,
    preimage: Seq<char>,
)
    ensures
        ({
            let r = incoming_payments(payment_identifier, status, amount_sats, preimage);
            &&& r.len() <= 1
            &&& r.len() == 1 <==> same_ignoring_case(status, "PAID"@)
            &&& r.len() == 1 ==> r[0].payment_identifier == payment_identifier
        }),
{
}

/// A message of the subscription is turned into an event only if its update is
/// paid and has a payment hash, by which the payment is then identified.
pub proof fn events_are_paid_updates(message: JsonView)
    ensures
        received_payment(message) matches Some(payment) ==> {
            &&& update_of(message) matches Some(update) && same_ignoring_case(
                status_of(update),
                "PAID"@,
            ) && (hash_of(update) matches Some(hash) && is_payment_hash(hash)
                && payment.payment_identifier == PaymentIdentifierView::PaymentHash(
                hex_bytes(hash),
            ))
        },
        update_of(message) matches Some(update) ==> (same_ignoring_case(
            status_of(update),
            "PAID"@,
        ) && (hash_of(update) matches Some(hash) && is_payment_hash(hash)) ==> received_payment(
            message,
        ) is Some),
{
}

/// A created invoice can be looked up: the question for its status names the
/// payment hash that Blink gave it, in lower case.
pub proof fn created_invoice_can_be_looked_up(client: BlinkClientView, payment_hash: Seq<char>)
    requires
        is_payment_hash(payment_hash),
    ensures
        status_by_hash_view(client, hex_text(hex_bytes(payment_hash))) == status_by_hash_view(
            client,
            ascii_lower(payment_hash),
        ),
{
    hex_writes_back(payment_hash);
}

/// An invoice that is accepted for payment is paid in full: its amount in
/// satoshis covers it, with less than one satoshi to spare.
pub proof fn payable_amount_covers_invoice(amount_msat: Option<u64>)
    ensures
        payable_sats(amount_msat) matches Some(sats) ==> {
            &&& sats > 0
            &&& amount_msat matches Some(msat) && msat <= 1000 * sats < msat + 1000
        },
        payable_sats(amount_msat) is None <==> amount_msat is None || amount_msat == Some(0u64),
{
}

/// How many of the streams are active.
pub open spec fn active_count(streams: Seq<PaymentEventStreamActivity>) -> nat
    decreases streams.len(),
{
    if streams.len() == 0 {
        0
    } else {
        active_count(streams.drop_last()) + if streams.last().active {
            1nat
        } else {
            0nat
        }
    }
}

/// Ending one of the streams lowers the number of active ones by one if it was
/// active, and leaves it otherwise.
pub proof fn ending_a_stream_counts_once(streams: Seq<PaymentEventStreamActivity>, i: int)
    requires
        0 <= i < streams.len(),
    ensures
        streams[i].active ==> active_count(streams) > 0,
        active_count(streams.update(i, PaymentEventStreamActivity { active: false }))
            == active_count(streams) - if streams[i].active {
            1int
        } else {
            0int
        },
    decreases streams.len(),
{
    let ended = PaymentEventStreamActivity { active: false };
    let after = streams.update(i, ended);
    if i == streams.len() - 1 {
        assert(after.drop_last() =~= streams.drop_last());
    } else {
        ending_a_stream_counts_once(streams.drop_last(), i);
        assert(after.drop_last() =~= streams.drop_last().update(i, ended));
    }
}

/// A mark that is released again, on completion and on drop, lowers the count
/// once.
pub proof fn released_mark_counts_once(active: bool, count: usize)
    ensures
        count_after_release(false, count_after_release(active, count)) == count_after_release(
            active,
            count,
        ),
        count > 0 ==> count_after_release(active, count) == count - if active {
            1int
        } else {
            0int
        },
{
}

/// Opening a stream raises the number of active ones by one.
pub proof fn opening_a_stream_counts_once(streams: Seq<PaymentEventStreamActivity>)
    ensures
        active_count(streams.push(PaymentEventStreamActivity { active: true })) == active_count(
            streams,
        ) + 1,
{
    let after = streams.push(PaymentEventStreamActivity { active: true });
    assert(after.drop_last() =~= streams);
}

} // verus!
