//! The payment processor service: what it answers to the calls of a mint.
//!
//! Each call is a decision before the exchange with Blink and one after it.
//! The exchange itself is made by whoever runs the service.

use vstd::prelude::*;

use crate::amount::sat_amount;
use crate::backend::{
    get_under, hash_of, received_payment, request_sats, settled_sats, settlement, status_of,
    str_of, text_at, update_of,
};
use crate::blink::rest::{
    asks_in_wallet, fails_with, gql_outcome, parsed_url, status_by_hash_view,
    status_by_request_view, wallets_request_view, BlinkClient, BlinkClientView, BlinkError,
    BlinkErrorView, Exchange, HttpRequest, InvoiceDetails, RequestStep, Wallet, WalletOperation,
    WalletOperationView,
};
use crate::blink::ws::{default_ws_config, websocket_url, WSClient, WSClientView};
use crate::bolt11::{decoded_bolt11, Bolt11Invoice};
use crate::json::{Json, JsonView};
use crate::payment::PaymentIdentifierView;
use crate::payment_hash::hex_bytes;
use crate::settings::Config;
use crate::text::{eq_ignore_ascii_case, same_ignoring_case, same_text};

verus! {

/// What the service supports, as JSON.
pub const SETTINGS: &'static str = r#"{"bolt11":true, "mpp":false, "unit":"sat", "invoice_description":false, "bolt12":false, "amountless":false}"#;

// ---------------------------------------------------------------------------
// Data
// ---------------------------------------------------------------------------

/// What kind of failure a call ended in.
#[derive(Clone, Copy, Debug, PartialEq, Eq, Structural)]
pub enum Code {
    Internal,
    InvalidArgument,
}

/// How a call failed.
#[derive(Clone, Debug, PartialEq, Eq)]
pub struct Status {
    pub code: Code,
    pub message: String,
}

/// Whether a call failed in the given way.
pub open spec fn rejected<T>(r: Result<T, Status>, code: Code, message: Seq<char>) -> bool {
    r matches Err(status) && status.code == code && status.message@ == message
}

/// What kind of identifier a payment has.
#[derive(Clone, Copy, Debug, PartialEq, Eq, Structural)]
pub enum IdentifierKind {
    PaymentHash,
    PaymentId,
}

/// What identifies a payment.
#[derive(Clone, Debug, PartialEq, Eq)]
pub enum IdentifierValue {
    Hash(String),
    Id(String),
}

/// A payment identifier; its value may be absent.
#[derive(Clone, Debug, PartialEq, Eq)]
pub struct Identifier {
    pub kind: IdentifierKind,
    pub value: Option<IdentifierValue>,
}

/// Whether an identifier is that of a payment hash.
pub open spec fn is_hash(identifier: Option<Identifier>, hash: Seq<char>) -> bool {
    identifier matches Some(id) && id.kind == IdentifierKind::PaymentHash && (
    id.value matches Some(IdentifierValue::Hash(h)) && h@ == hash)
}

/// Whether an identifier is that of a payment id.
pub open spec fn is_id(identifier: Option<Identifier>, id: Seq<char>) -> bool {
    identifier matches Some(i) && i.kind == IdentifierKind::PaymentId && (
    i.value matches Some(IdentifierValue::Id(x)) && x@ == id)
}

/// How far a payment has come.
#[derive(Clone, Copy, Debug, PartialEq, Eq, Structural)]
pub enum QuoteState {
    Unknown,
    Paid,
    Pending,
    Failed,
}

/// How a payment is to be received.
#[derive(Clone, Debug)]
pub enum IncomingOptions {
    Bolt11 { amount: u64 },
    Bolt12 { amount: Option<u64> },
}

/// Asks for an invoice.
#[derive(Clone, Debug)]
pub struct CreatePaymentRequest {
    pub unit: String,
    pub options: Option<IncomingOptions>,
}

/// An invoice that has been created.
#[derive(Clone, Debug, PartialEq, Eq)]
pub struct CreatePaymentResponse {
    pub request_identifier: Option<Identifier>,
    pub request: String,
    pub expiry: Option<u64>,
}

/// Asks what paying an invoice or an offer costs.
#[derive(Clone, Debug)]
pub struct PaymentQuoteRequest {
    pub request: String,
    pub unit: String,
    /// 0 for a BOLT11 invoice, 1 for a BOLT12 offer.
    pub request_type: i32,
}

/// What a payment costs.
#[derive(Clone, Debug, PartialEq, Eq)]
pub struct PaymentQuoteResponse {
    pub request_identifier: Option<Identifier>,
    pub amount: u64,
    pub fee: u64,
    pub state: QuoteState,
    pub unit: String,
}

/// What Blink asks for an offer.
#[derive(Clone, Debug)]
pub struct OfferQuote {
    pub amount: u64,
    pub currency: String,
}

/// What follows the lookup of the payment hash for a quote.
#[derive(Debug)]
pub enum QuoteStep {
    /// The quote.
    Done(PaymentQuoteResponse),
    /// Blink is to be asked for a quote of the offer, which is answered in the
    /// requested unit.
    QuoteOffer { offer: String, unit: String },
}

/// How a payment is to be sent.
#[derive(Clone, Debug)]
pub enum OutgoingOptions {
    Bolt11 { bolt11: String, limits: PaymentLimits },
    Bolt12 { offer: String, limits: PaymentLimits },
}

/// The limits within which a payment is to be made.
#[derive(Clone, Copy, Debug, PartialEq, Eq, Structural)]
pub struct PaymentLimits {
    /// The largest routing fee that is allowed, in satoshis.
    pub max_fee_amount: Option<u64>,
    /// How long the payment may take, in seconds.
    pub timeout_secs: Option<u64>,
}

/// A payment that Blink is to make.
#[derive(Clone, Debug, PartialEq, Eq)]
pub struct RequestedPayment {
    /// The invoice, or the offer in its place; empty if there is none.
    pub request: String,
    pub limits: PaymentLimits,
}

/// What has happened to a stream of incoming payments.
#[derive(Debug)]
pub enum StreamEvent {
    /// A message of the subscription came.
    Update(Json),
    /// The subscription is over.
    UpdatesEnded,
    /// The payment was handed to the client.
    Sent,
    /// The client has disconnected.
    ClientClosed,
}

/// What a stream of incoming payments does next.
#[derive(Debug)]
pub enum StreamAction {
    /// Wait for the next event.
    Wait,
    /// Hand the payment to the client.
    Send(WaitIncomingPaymentResponse),
    /// End, which ends the subscription too.
    Finish,
}

/// What became of a payment.
#[derive(Clone, Debug, PartialEq, Eq)]
pub struct MakePaymentResponse {
    pub payment_identifier: Option<Identifier>,
    pub payment_proof: Option<String>,
    pub status: QuoteState,
    pub total_spent: u64,
    pub unit: String,
}

/// A payment that has been received.
#[derive(Clone, Debug, PartialEq, Eq)]
pub struct WaitIncomingPaymentResponse {
    pub payment_identifier: Option<Identifier>,
    pub payment_amount: u64,
    pub unit: String,
    pub payment_id: String,
}

/// An outgoing payment as Blink reports it.
#[derive(Clone, Debug)]
pub struct OutgoingPayment {
    pub id: String,
    pub amount: u64,
}

/// How an outgoing payment is looked up.
#[derive(Debug)]
pub enum OutgoingLookup {
    /// By this id.
    ById(String),
    /// By this payment hash, with this request.
    ByHash(String, HttpRequest),
}

// ---------------------------------------------------------------------------
// Rules
// ---------------------------------------------------------------------------

/// The amount that an invoice is asked for; nothing if the request does not say.
pub open spec fn requested_amount(options: Option<IncomingOptions>) -> u64 {
    match options {
        Some(IncomingOptions::Bolt11 { amount }) => amount,
        Some(IncomingOptions::Bolt12 { amount: Some(amount) }) => amount,
        _ => 0,
    }
}

/// The request that a payment pays; empty if there is none.
pub open spec fn requested_payment(options: Option<OutgoingOptions>) -> Seq<char> {
    match options {
        Some(OutgoingOptions::Bolt11 { bolt11, .. }) => bolt11@,
        Some(OutgoingOptions::Bolt12 { offer, .. }) => offer@,
        None => Seq::empty(),
    }
}

/// The limits of a payment; none if the request does not say.
pub open spec fn requested_limits(options: Option<OutgoingOptions>) -> PaymentLimits {
    match options {
        Some(OutgoingOptions::Bolt11 { limits, .. }) => limits,
        Some(OutgoingOptions::Bolt12 { limits, .. }) => limits,
        None => PaymentLimits { max_fee_amount: None, timeout_secs: None },
    }
}

/// Whether a routing fee is more than the limits allow.
pub open spec fn exceeds(limits: PaymentLimits, fee: u64) -> bool {
    limits.max_fee_amount matches Some(max) && fee > max
}

/// The whole satoshis that a payment has cost with its fee, as far as they can be
/// counted.
pub open spec fn spent(amount_msat: u64, fee: u64) -> int {
    if amount_msat / 1000 + fee <= u64::MAX {
        amount_msat / 1000 + fee
    } else {
        u64::MAX as int
    }
}

/// The state of a payment that was sent with the given status.
pub open spec fn sent_state(status: Seq<char>) -> QuoteState {
    if status == "SUCCESS"@ {
        QuoteState::Paid
    } else if status == "PENDING"@ {
        QuoteState::Pending
    } else if status == "FAILURE"@ || status == "FAILED"@ {
        QuoteState::Failed
    } else {
        QuoteState::Unknown
    }
}

/// The state of a payment that was found with the given status.
pub open spec fn found_state(status: Seq<char>) -> QuoteState {
    if status == "PAID"@ {
        QuoteState::Paid
    } else if status == "PENDING"@ {
        QuoteState::Pending
    } else if status == "FAILED"@ {
        QuoteState::Failed
    } else {
        QuoteState::Unknown
    }
}

/// The whole satoshis of an invoice that may be unreadable or leave its amount
/// open: nothing then.
pub open spec fn whole_sats(payment_request: Seq<char>) -> u64 {
    match decoded_bolt11(payment_request) {
        Ok((Some(msat), _)) => (msat / 1000) as u64,
        _ => 0,
    }
}

/// Whether a response reports the payment of the given hash.
pub open spec fn reports_payment(
    r: WaitIncomingPaymentResponse,
    hash: Seq<char>,
    amount: u64,
    payment_id: Seq<char>,
) -> bool {
    &&& is_hash(r.payment_identifier, hash)
    &&& r.payment_amount == amount
    &&& r.unit@ == "sat"@
    &&& r.payment_id@ == payment_id
}

/// The preimage of an update; empty if it has none.
pub open spec fn preimage_of(update: JsonView) -> Seq<char> {
    match text_at(update.field("preimage"@)) {
        Some(s) => s,
        None => Seq::empty(),
    }
}

/// The payment hash that an update is forwarded with: that of an update which is
/// paid and has one.
pub open spec fn forwarded_hash(update: JsonView) -> Option<Seq<char>> {
    match hash_of(update) {
        Some(hash) => if same_ignoring_case(status_of(update), "PAID"@) && hash.len() > 0 {
            Some(hash)
        } else {
            None
        },
        None => None,
    }
}

/// What a message of the subscription is forwarded with: the payment hash, the
/// amount in satoshis and the preimage.
pub open spec fn forwarded_payment(message: JsonView) -> Option<(Seq<char>, u64, Seq<char>)> {
    match update_of(message) {
        Some(update) => match forwarded_hash(update) {
            Some(hash) => Some((hash, settled_sats(update), preimage_of(update))),
            None => None,
        },
        None => None,
    }
}

/// An identifier for a payment hash.
fn hash_identifier(hash: String) -> (r: Option<Identifier>)
    ensures
        is_hash(r, hash@),
{
    Some(
        Identifier {
            kind: IdentifierKind::PaymentHash,
            value: Some(IdentifierValue::Hash(hash)),
        },
    )
}

/// A failure with a message that a cause completes.
fn status(code: Code, text: &str, cause: &str) -> (r: Status)
    ensures
        r.code == code,
        r.message@ == text@ + cause@,
{
    Status { code, message: text.to_string().concat(cause) }
}

/// A failure for an argument.
fn invalid_argument(text: &str) -> (r: Status)
    ensures
        r.code == Code::InvalidArgument,
        r.message@ == text@,
{
    Status { code: Code::InvalidArgument, message: text.to_string() }
}

/// The whole satoshis of an invoice; nothing if it is unreadable or leaves them
/// open.
fn whole_sats_of(payment_request: &str) -> (r: u64)
    ensures
        r == whole_sats(payment_request@),
{
    match Bolt11Invoice::parse(payment_request) {
        Ok(invoice) => match invoice.amount_msat {
            Some(msat) => msat / 1000,
            None => 0,
        },
        Err(_) => 0,
    }
}

// ---------------------------------------------------------------------------
// Service
// ---------------------------------------------------------------------------

/// The payment processor service.
#[derive(Clone, Debug)]
pub struct PaymentProcessorService {
    pub cfg: Config,
    pub blink: BlinkClient,
}

impl PaymentProcessorService {
    /// Begins to create a service, unless the endpoint is no URL: with it comes
    /// the request by which the connection to Blink and the API key are checked.
    pub fn try_new(cfg: Config) -> (r: Result<(PaymentProcessorService, HttpRequest), BlinkError>)
        ensures
            match parsed_url(cfg.backend.api_url@) {
                Ok(url) => r matches Ok((service, request)) && service.cfg == cfg
                    && service.blink@ == (BlinkClientView {
                    base_url: url,
                    api_key: cfg.backend.api_key@,
                    wallet_id: cfg.backend.wallet_id@,
                }) && request@ == wallets_request_view(service.blink@),
                Err(e) => fails_with(r, BlinkErrorView::InvalidUrl(e)),
            },
    {
        match BlinkClient::new(&cfg.backend) {
            Ok(blink) => {
                let request = blink.wallets_request();
                Ok((PaymentProcessorService { cfg, blink }, request))
            },
            Err(e) => Err(e),
        }
    }

    /// The service, once Blink has answered; an error if Blink cannot be reached
    /// or rejects the API key.
    pub fn connectivity_checked(self, exchange: Exchange<Vec<Wallet>>) -> (r: Result<
        PaymentProcessorService,
        BlinkError,
    >)
        ensures
            match gql_outcome(exchange) {
                Ok(_) => r == Ok::<PaymentProcessorService, BlinkError>(self),
                Err(e) => fails_with(r, e),
            },
    {
        match BlinkClient::gql(exchange) {
            Ok(_) => Ok(self),
            Err(e) => Err(e),
        }
    }

    /// What the service supports, as JSON.
    pub fn get_settings(&self) -> (r: String)
        ensures
            r@ == SETTINGS@,
    {
        SETTINGS.to_string()
    }

    /// The amount and the memo of the invoice that Blink is to create.
    pub fn create_payment(request: CreatePaymentRequest) -> (r: (u64, String))
        ensures
            r.0 == requested_amount(request.options),
            r.1@ == request.unit@,
    {
        let amount: u64 = match request.options {
            Some(IncomingOptions::Bolt11 { amount }) => amount,
            Some(IncomingOptions::Bolt12 { amount }) => match amount {
                Some(amount) => amount,
                None => 0,
            },
            None => 0,
        };
        (amount, request.unit)
    }

    /// What is to be sent to create the invoice that is asked for, given what came
    /// of the question for the account's wallets if it has been asked.
    pub fn invoice_request(
        &self,
        request: CreatePaymentRequest,
        wallets: Option<Exchange<Vec<Wallet>>>,
    ) -> (r: Result<RequestStep, BlinkError>)
        ensures
            asks_in_wallet(
                r,
                self.blink@,
                WalletOperationView::CreateInvoice {
                    amount: requested_amount(request.options),
                    memo: request.unit@,
                },
                wallets,
            ),
    {
        let (amount, memo) = PaymentProcessorService::create_payment(request);
        self.blink.wallet_request(
            WalletOperation::CreateInvoice { amount, memo: memo.as_str() },
            wallets,
        )
    }

    /// The answer to the request for an invoice, once Blink has created it or
    /// refused to.
    pub fn payment_created(outcome: Result<InvoiceDetails, BlinkError>) -> (r: Result<
        CreatePaymentResponse,
        Status,
    >)
        ensures
            match outcome {
                Ok(invoice) => r matches Ok(response) && is_hash(
                    response.request_identifier,
                    invoice.payment_hash@,
                ) && response.request@ == invoice.payment_request@ && response.expiry is None,
                Err(e) => rejected(r, Code::Internal, "create invoice failed: "@ + e@.text()),
            },
    {
        match outcome {
            Ok(invoice) => Ok(
                CreatePaymentResponse {
                    request_identifier: hash_identifier(invoice.payment_hash),
                    request: invoice.payment_request,
                    expiry: None,
                },
            ),
            Err(e) => Err(
                status(Code::Internal, "create invoice failed: ", e.message().as_str()),
            ),
        }
    }

    /// The request for the payment hash of what is to be quoted.
    pub fn quote_request(&self, request: &PaymentQuoteRequest) -> (r: HttpRequest)
        ensures
            r@ == status_by_request_view(self.blink@, request.request@),
    {
        self.blink.status_by_request_request(request.request.as_str())
    }

    /// What follows the lookup of the payment hash of a request that is to be
    /// quoted.
    pub fn get_payment_quote(
        request: PaymentQuoteRequest,
        outcome: Result<(String, String, String), BlinkError>,
    ) -> (r: Result<QuoteStep, Status>)
        ensures
            match outcome {
                Ok((_, payment_hash, _)) => if request.request_type == 0 {
                    match decoded_bolt11(request.request@) {
                        Ok((Some(msat), _)) => r matches Ok(QuoteStep::Done(quote)) && is_quote(
                            quote,
                            payment_hash@,
                            msat,
                            request.unit@,
                        ),
                        Ok((None, _)) => rejected(
                            r,
                            Code::InvalidArgument,
                            "amountless invoice unsupported"@,
                        ),
                        Err(e) => rejected(r, Code::InvalidArgument, "invalid bolt11: "@ + e),
                    }
                } else if request.request_type == 1 {
                    r matches Ok(QuoteStep::QuoteOffer { offer, unit }) && offer@
                        == request.request@ && unit@ == request.unit@
                } else {
                    rejected(r, Code::InvalidArgument, "unsupported request type"@)
                },
                Err(e) => rejected(
                    r,
                    Code::Internal,
                    "failed to resolve payment hash from invoice: "@ + e@.text(),
                ),
            },
    {
        let payment_hash = match outcome {
            Ok((_, payment_hash, _)) => payment_hash,
            Err(e) => {
                return Err(
                    status(
                        Code::Internal,
                        "failed to resolve payment hash from invoice: ",
                        e.message().as_str(),
                    ),
                );
            },
        };
        if request.request_type == 0 {
            let invoice = Bolt11Invoice::parse(request.request.as_str());
            match PaymentProcessorService::quote_invoice(invoice, payment_hash, request.unit) {
                Ok(quote) => Ok(QuoteStep::Done(quote)),
                Err(e) => Err(e),
            }
        } else if request.request_type == 1 {
            Ok(QuoteStep::QuoteOffer { offer: request.request, unit: request.unit })
        } else {
            Err(invalid_argument("unsupported request type"))
        }
    }

    /// The quote for an invoice that has been read, or could not be.
    pub fn quote_invoice(
        invoice: Result<Bolt11Invoice, String>,
        payment_hash: String,
        unit: String,
    ) -> (r: Result<PaymentQuoteResponse, Status>)
        ensures
            match invoice {
                Ok(invoice) => match invoice.amount_msat {
                    Some(msat) => r matches Ok(quote) && is_quote(
                        quote,
                        payment_hash@,
                        msat,
                        unit@,
                    ),
                    None => rejected(
                        r,
                        Code::InvalidArgument,
                        "amountless invoice unsupported"@,
                    ),
                },
                Err(e) => rejected(r, Code::InvalidArgument, "invalid bolt11: "@ + e@),
            },
    {
        let invoice = match invoice {
            Ok(invoice) => invoice,
            Err(e) => {
                return Err(status(Code::InvalidArgument, "invalid bolt11: ", e.as_str()));
            },
        };
        match invoice.amount_msat {
            Some(msat) => Ok(
                PaymentQuoteResponse {
                    request_identifier: hash_identifier(payment_hash),
                    amount: msat / 1000,
                    fee: 0,
                    state: QuoteState::Unknown,
                    unit,
                },
            ),
            None => Err(invalid_argument("amountless invoice unsupported")),
        }
    }

    /// The quote for an offer in the requested unit, once Blink has quoted it or
    /// refused to.
    pub fn offer_quoted(unit: String, outcome: Result<OfferQuote, BlinkError>) -> (r: Result<
        PaymentQuoteResponse,
        Status,
    >)
        ensures
            match outcome {
                Ok(quote) => r matches Ok(response) && response.request_identifier is None
                    && response.amount == quote.amount && response.fee == 0 && response.state
                    == QuoteState::Unknown && response.unit@ == unit@,
                Err(e) => rejected(r, Code::Internal, "offer quote failed: "@ + e@.text()),
            },
    {
        match outcome {
            Ok(quote) => Ok(
                PaymentQuoteResponse {
                    request_identifier: None,
                    amount: quote.amount,
                    fee: 0,
                    state: QuoteState::Unknown,
                    unit,
                },
            ),
            Err(e) => Err(status(Code::Internal, "offer quote failed: ", e.message().as_str())),
        }
    }

    /// The payment that Blink is to make: of the invoice, or of the offer in its
    /// place, within the limits of the request.
    pub fn make_payment(options: Option<OutgoingOptions>) -> (r: RequestedPayment)
        ensures
            r.request@ == requested_payment(options),
            r.limits == requested_limits(options),
    {
        match options {
            Some(OutgoingOptions::Bolt11 { bolt11, limits }) => {
                RequestedPayment { request: bolt11, limits }
            },
            Some(OutgoingOptions::Bolt12 { offer, limits }) => {
                RequestedPayment { request: offer, limits }
            },
            None => RequestedPayment {
                request: String::new(),
                limits: PaymentLimits { max_fee_amount: None, timeout_secs: None },
            },
        }
    }

    /// What is to be sent to probe the routing fee of a payment, given what came of
    /// the question for the account's wallets if it has been asked.
    pub fn fee_request(
        &self,
        payment: &RequestedPayment,
        wallets: Option<Exchange<Vec<Wallet>>>,
    ) -> (r: Result<RequestStep, BlinkError>)
        ensures
            asks_in_wallet(
                r,
                self.blink@,
                WalletOperationView::ProbeFee { bolt11: payment.request@ },
                wallets,
            ),
    {
        self.blink.wallet_request(
            WalletOperation::ProbeFee { bolt11: payment.request.as_str() },
            wallets,
        )
    }

    /// What is to be sent to make a payment, given what came of the question for the
    /// account's wallets if it has been asked.
    pub fn payment_request(
        &self,
        payment: &RequestedPayment,
        wallets: Option<Exchange<Vec<Wallet>>>,
    ) -> (r: Result<RequestStep, BlinkError>)
        ensures
            asks_in_wallet(
                r,
                self.blink@,
                WalletOperationView::MakePayment { bolt11: payment.request@ },
                wallets,
            ),
    {
        self.blink.wallet_request(
            WalletOperation::MakePayment { bolt11: payment.request.as_str() },
            wallets,
        )
    }

    /// Refuses a payment whose routing fee, as Blink has probed it, is more than
    /// the request allows. A fee that Blink cannot tell stands in the way of no
    /// payment.
    pub fn fee_probed(limits: PaymentLimits, fee: Result<u64, BlinkError>) -> (r: Result<
        (),
        Status,
    >)
        ensures
            if fee matches Ok(fee) && exceeds(limits, fee) {
                rejected(r, Code::InvalidArgument, "routing fee exceeds max_fee_amount"@)
            } else {
                r is Ok
            },
    {
        match (limits.max_fee_amount, fee) {
            (Some(max), Ok(fee)) => {
                if fee > max {
                    return Err(invalid_argument("routing fee exceeds max_fee_amount"));
                }
                Ok(())
            },
            _ => Ok(()),
        }
    }

    /// The status of a payment that Blink was told to send, and the request for its
    /// payment hash.
    pub fn payment_sent(&self, payment: &RequestedPayment, outcome: Result<String, BlinkError>) -> (
    r: Result<(String, HttpRequest), Status>)
        ensures
            match outcome {
                Ok(s) => r matches Ok((sent, request)) && sent@ == s@ && request@
                    == status_by_request_view(self.blink@, payment.request@),
                Err(e) => rejected(r, Code::Internal, "make payment failed: "@ + e@.text()),
            },
    {
        match outcome {
            Ok(s) => Ok((s, self.blink.status_by_request_request(payment.request.as_str()))),
            Err(e) => Err(status(Code::Internal, "make payment failed: ", e.message().as_str())),
        }
    }

    /// The answer to a payment that was sent with the given status and cost the
    /// given fee, once its payment hash has been looked up.
    pub fn payment_resolved(
        payment: &RequestedPayment,
        sent: String,
        fee: u64,
        outcome: Result<(String, String, String), BlinkError>,
    ) -> (r: Result<MakePaymentResponse, Status>)
        ensures
            match outcome {
                Ok((_, payment_hash, _)) => match decoded_bolt11(payment.request@) {
                    Ok((Some(msat), _)) => r matches Ok(response) && is_sent_payment(
                        response,
                        payment_hash@,
                        sent@,
                        msat,
                        fee,
                    ),
                    Ok((None, _)) => rejected(
                        r,
                        Code::InvalidArgument,
                        "amountless invoice unsupported"@,
                    ),
                    Err(e) => rejected(r, Code::InvalidArgument, "invalid bolt11: "@ + e),
                },
                Err(e) => rejected(
                    r,
                    Code::Internal,
                    "failed to resolve payment hash from invoice: "@ + e@.text(),
                ),
            },
    {
        match outcome {
            Ok((_, payment_hash, _)) => {
                let invoice = Bolt11Invoice::parse(payment.request.as_str());
                PaymentProcessorService::payment_of_invoice(invoice, payment_hash, sent, fee)
            },
            Err(e) => Err(
                status(
                    Code::Internal,
                    "failed to resolve payment hash from invoice: ",
                    e.message().as_str(),
                ),
            ),
        }
    }

    /// The answer to a payment of an invoice that has been read, or could not be.
    pub fn payment_of_invoice(
        invoice: Result<Bolt11Invoice, String>,
        payment_hash: String,
        sent: String,
        fee: u64,
    ) -> (r: Result<MakePaymentResponse, Status>)
        ensures
            match invoice {
                Ok(invoice) => match invoice.amount_msat {
                    Some(msat) => r matches Ok(response) && is_sent_payment(
                        response,
                        payment_hash@,
                        sent@,
                        msat,
                        fee,
                    ),
                    None => rejected(
                        r,
                        Code::InvalidArgument,
                        "amountless invoice unsupported"@,
                    ),
                },
                Err(e) => rejected(r, Code::InvalidArgument, "invalid bolt11: "@ + e@),
            },
    {
        let invoice = match invoice {
            Ok(invoice) => invoice,
            Err(e) => {
                return Err(status(Code::InvalidArgument, "invalid bolt11: ", e.as_str()));
            },
        };
        match invoice.amount_msat {
            Some(msat) => {
                let s = sent.as_str();
                let state = if same_text(s, "SUCCESS") {
                    QuoteState::Paid
                } else if same_text(s, "PENDING") {
                    QuoteState::Pending
                } else if same_text(s, "FAILURE") || same_text(s, "FAILED") {
                    QuoteState::Failed
                } else {
                    QuoteState::Unknown
                };
                Ok(
                    MakePaymentResponse {
                        payment_identifier: hash_identifier(payment_hash),
                        payment_proof: Some(sent),
                        status: state,
                        total_spent: if fee <= u64::MAX - msat / 1000 {
                            msat / 1000 + fee
                        } else {
                            u64::MAX
                        },
                        unit: "sat".to_string(),
                    },
                )
            },
            None => Err(invalid_argument("amountless invoice unsupported")),
        }
    }

    /// The payment hash of an incoming payment that is asked for, and the request
    /// for its status.
    pub fn check_incoming_payment(&self, request_identifier: Option<Identifier>) -> (r: Result<
        (String, HttpRequest),
        Status,
    >)
        ensures
            match request_identifier {
                Some(identifier) => match identifier.value {
                    Some(IdentifierValue::Hash(hash)) => r matches Ok((h, request)) && h@ == hash@
                        && request@ == status_by_hash_view(self.blink@, hash@),
                    _ => rejected(r, Code::InvalidArgument, "expected payment hash"@),
                },
                None => rejected(r, Code::InvalidArgument, "missing request_identifier"@),
            },
    {
        match request_identifier {
            Some(identifier) => match identifier.value {
                Some(IdentifierValue::Hash(hash)) => {
                    let request = self.blink.status_by_hash_request(hash.as_str());
                    Ok((hash, request))
                },
                _ => Err(invalid_argument("expected payment hash")),
            },
            None => Err(invalid_argument("missing request_identifier")),
        }
    }

    /// The answer to the question for an incoming payment, once Blink has told
    /// its status, request and preimage: the payment if it is paid, else nothing.
    pub fn incoming_payment_checked(
        hash: String,
        outcome: Result<(String, String, String), BlinkError>,
    ) -> (r: Result<Vec<WaitIncomingPaymentResponse>, Status>)
        ensures
            match outcome {
                Ok((found, request, preimage)) => r matches Ok(payments) && if same_ignoring_case(
                    found@,
                    "PAID"@,
                ) {
                    payments@.len() == 1 && reports_payment(
                        payments@[0],
                        hash@,
                        whole_sats(request@),
                        preimage@,
                    )
                } else {
                    payments@.len() == 0
                },
                Err(e) => rejected(r, Code::Internal, "query blink failed: "@ + e@.text()),
            },
    {
        let (found, request, preimage) = match outcome {
            Ok(answer) => answer,
            Err(e) => {
                return Err(
                    status(Code::Internal, "query blink failed: ", e.message().as_str()),
                );
            },
        };
        let mut payments: Vec<WaitIncomingPaymentResponse> = Vec::new();
        if eq_ignore_ascii_case(found.as_str(), "PAID") {
            payments.push(
                WaitIncomingPaymentResponse {
                    payment_identifier: hash_identifier(hash),
                    payment_amount: whole_sats_of(request.as_str()),
                    unit: "sat".to_string(),
                    payment_id: preimage,
                },
            );
        }
        Ok(payments)
    }

    /// How the outgoing payment that is asked for is looked up.
    pub fn check_outgoing_payment(&self, request_identifier: Option<Identifier>) -> (r: Result<
        OutgoingLookup,
        Status,
    >)
        ensures
            match request_identifier {
                Some(identifier) => match identifier.value {
                    Some(IdentifierValue::Id(id)) => r matches Ok(OutgoingLookup::ById(i)) && i@
                        == id@,
                    Some(IdentifierValue::Hash(hash)) => r matches Ok(
                        OutgoingLookup::ByHash(h, request),
                    ) && h@ == hash@ && request@ == status_by_hash_view(self.blink@, hash@),
                    None => rejected(r, Code::InvalidArgument, "expected payment id or hash"@),
                },
                None => rejected(r, Code::InvalidArgument, "missing request_identifier"@),
            },
    {
        match request_identifier {
            Some(identifier) => match identifier.value {
                Some(IdentifierValue::Id(id)) => Ok(OutgoingLookup::ById(id)),
                Some(IdentifierValue::Hash(hash)) => {
                    let request = self.blink.status_by_hash_request(hash.as_str());
                    Ok(OutgoingLookup::ByHash(hash, request))
                },
                None => Err(invalid_argument("expected payment id or hash")),
            },
            None => Err(invalid_argument("missing request_identifier")),
        }
    }

    /// The answer to the question for an outgoing payment by its id, once Blink
    /// has reported it.
    pub fn outgoing_payment_by_id(outcome: Result<OutgoingPayment, BlinkError>) -> (r: Result<
        MakePaymentResponse,
        Status,
    >)
        ensures
            match outcome {
                Ok(payment) => r matches Ok(response) && is_id(
                    response.payment_identifier,
                    payment.id@,
                ) && response.payment_proof is None && response.status == QuoteState::Unknown
                    && response.total_spent == payment.amount && response.unit@ == "sat"@,
                Err(e) => rejected(
                    r,
                    Code::Internal,
                    "failed to fetch outgoing payment: "@ + e@.text(),
                ),
            },
    {
        match outcome {
            Ok(payment) => Ok(
                MakePaymentResponse {
                    payment_identifier: Some(
                        Identifier {
                            kind: IdentifierKind::PaymentId,
                            value: Some(IdentifierValue::Id(payment.id)),
                        },
                    ),
                    payment_proof: None,
                    status: QuoteState::Unknown,
                    total_spent: payment.amount,
                    unit: "sat".to_string(),
                },
            ),
            Err(e) => Err(
                status(
                    Code::Internal,
                    "failed to fetch outgoing payment: ",
                    e.message().as_str(),
                ),
            ),
        }
    }

    /// The answer to the question for an outgoing payment by its hash, once Blink
    /// has told its status and request.
    pub fn outgoing_payment_by_hash(
        hash: String,
        outcome: Result<(String, String, String), BlinkError>,
    ) -> (r: Result<MakePaymentResponse, Status>)
        ensures
            match outcome {
                Ok((found, request, _)) => r matches Ok(response) && is_hash(
                    response.payment_identifier,
                    hash@,
                ) && response.payment_proof is None && response.status == found_state(found@)
                    && response.total_spent == (if found@ == "PAID"@ {
                    whole_sats(request@)
                } else {
                    0
                }) && response.unit@ == "sat"@,
                Err(e) => rejected(
                    r,
                    Code::Internal,
                    "failed to check payment by hash: "@ + e@.text(),
                ),
            },
    {
        let (found, request, _) = match outcome {
            Ok(answer) => answer,
            Err(e) => {
                return Err(
                    status(
                        Code::Internal,
                        "failed to check payment by hash: ",
                        e.message().as_str(),
                    ),
                );
            },
        };
        let s = found.as_str();
        let paid = same_text(s, "PAID");
        let state = if paid {
            QuoteState::Paid
        } else if same_text(s, "PENDING") {
            QuoteState::Pending
        } else if same_text(s, "FAILED") {
            QuoteState::Failed
        } else {
            QuoteState::Unknown
        };
        let total_spent: u64 = if paid {
            whole_sats_of(request.as_str())
        } else {
            0
        };
        Ok(
            MakePaymentResponse {
                payment_identifier: hash_identifier(hash),
                payment_proof: None,
                status: state,
                total_spent,
                unit: "sat".to_string(),
            },
        )
    }

    /// The subscription to payment updates.
    pub fn subscription(&self) -> (r: WSClient)
        ensures
            r@ == (WSClientView {
                url: websocket_url(self.blink@.base_url),
                api_key: self.blink@.api_key,
                cfg: default_ws_config(),
            }),
    {
        WSClient::new(self.blink.api_url(), self.blink.api_key_str())
    }

    /// Takes a stream of incoming payments one step further: paid updates are
    /// handed to the client, other messages are passed over, and the stream goes on
    /// until the client disconnects or the subscription is over.
    pub fn wait_incoming_payment(event: StreamEvent) -> (r: StreamAction)
        ensures
            match event {
                StreamEvent::Update(message) => match forwarded_payment(message@) {
                    Some((hash, amount, payment_id)) => r matches StreamAction::Send(response)
                        && reports_payment(response, hash, amount, payment_id),
                    None => r is Wait,
                },
                StreamEvent::Sent => r is Wait,
                StreamEvent::UpdatesEnded | StreamEvent::ClientClosed => r is Finish,
            },
    {
        match event {
            StreamEvent::Update(message) => {
                match PaymentProcessorService::incoming_update(&message) {
                    Some(response) => StreamAction::Send(response),
                    None => StreamAction::Wait,
                }
            },
            StreamEvent::Sent => StreamAction::Wait,
            StreamEvent::UpdatesEnded | StreamEvent::ClientClosed => StreamAction::Finish,
        }
    }

    /// What a message of the subscription is forwarded as, if it is.
    pub fn incoming_update(v: &Json) -> (r: Option<WaitIncomingPaymentResponse>)
        ensures
            match forwarded_payment(v@) {
                Some((hash, amount, payment_id)) => r matches Some(response) && reports_payment(
                    response,
                    hash,
                    amount,
                    payment_id,
                ),
                None => r is None,
            },
    {
        let update = get_under(
            get_under(get_under(v.get("payload"), "data"), "myUpdates"),
            "update",
        );
        let update = match update {
            Some(update) => update,
            None => {
                return None;
            },
        };
        proof {
            reveal_strlit("");
            assert(""@ =~= Seq::<char>::empty());
        }
        let found = match str_of(update.get("status")) {
            Some(s) => s,
            None => "",
        };
        let preimage = match str_of(update.get("preimage")) {
            Some(s) => s,
            None => "",
        };
        let txn = update.get("transaction");
        let sats: u64 = settlement(get_under(txn, "settlementAmount"));
        let payment_hash = match str_of(
            get_under(get_under(txn, "initiationVia"), "paymentHash"),
        ) {
            Some(s) => s,
            None => "",
        };
        if !eq_ignore_ascii_case(found, "PAID") {
            return None;
        }
        if payment_hash.is_empty() {
            return None;
        }
        Some(
            WaitIncomingPaymentResponse {
                payment_identifier: hash_identifier(payment_hash.to_string()),
                payment_amount: sats,
                unit: "sat".to_string(),
                payment_id: preimage.to_string(),
            },
        )
    }
}

/// Whether a response quotes the payment of an invoice.
pub open spec fn is_quote(
    quote: PaymentQuoteResponse,
    payment_hash: Seq<char>,
    amount_msat: u64,
    unit: Seq<char>,
) -> bool {
    &&& is_hash(quote.request_identifier, payment_hash)
    &&& quote.amount == amount_msat / 1000
    &&& quote.fee == 0
    &&& quote.state == QuoteState::Unknown
    &&& quote.unit@ == unit
}

/// Whether a response reports a payment that was sent with the given status and
/// cost the given fee.
pub open spec fn is_sent_payment(
    response: MakePaymentResponse,
    payment_hash: Seq<char>,
    sent: Seq<char>,
    amount_msat: u64,
    fee: u64,
) -> bool {
    &&& is_hash(response.payment_identifier, payment_hash)
    &&& response.payment_proof matches Some(proof) && proof@ == sent
    &&& response.status == sent_state(sent)
    &&& response.total_spent == spent(amount_msat, fee)
    &&& response.unit@ == "sat"@
}

// ---------------------------------------------------------------------------
// Laws
// ---------------------------------------------------------------------------

/// Only paid updates with a payment hash are forwarded.
pub proof fn forwards_paid_updates_only(update: JsonView)
    ensures
        forwarded_hash(update) matches Some(hash) ==> same_ignoring_case(
            status_of(update),
            "PAID"@,
        ) && hash.len() > 0 && hash_of(update) == Some(hash),
{
}

/// The service forwards every payment that the backend reports as an event, with
/// the same payment hash and the same amount.
pub proof fn forwards_what_the_backend_reports(message: JsonView)
    ensures
        received_payment(message) matches Some(payment) ==> (forwarded_payment(
            message,
        ) matches Some((hash, amount, _)) && payment.payment_identifier
            == PaymentIdentifierView::PaymentHash(hex_bytes(hash)) && payment.payment_amount
            == sat_amount(amount)),
{
}

/// A fee that is allowed keeps what is spent within the amount and the largest
/// fee.
pub proof fn allowed_fee_bounds_what_is_spent(limits: PaymentLimits, amount_msat: u64, fee: u64)
    requires
        !exceeds(limits, fee),
    ensures
        limits.max_fee_amount matches Some(max) ==> spent(amount_msat, fee) <= amount_msat / 1000
            + max,
{
}

/// The service rounds the amount of an invoice down and the backend rounds it up:
/// they differ by one satoshi at most.
pub proof fn roundings_differ_by_one_at_most(payment_request: Seq<char>)
    ensures
        whole_sats(payment_request) <= request_sats(payment_request) <= whole_sats(payment_request)
            + 1,
{
}

} // verus!
