//! What a mint asks of a payment backend, and what it is answered.

use vstd::prelude::*;

use crate::amount::{Amount, AmountView};
use crate::blink::rest::{BlinkError, BlinkErrorView};
use crate::bolt11::Bolt11Invoice;

verus! {

/// What a payment is looked up by.
#[derive(Clone, Debug, PartialEq, Eq)]
pub enum PaymentIdentifier {
    Label(String),
    OfferId(String),
    PaymentHash([u8; 32]),
    Bolt12PaymentHash([u8; 32]),
    PaymentId([u8; 32]),
    CustomId(String),
    QuoteId(String),
}

/// What a payment is looked up by, as a value.
pub enum PaymentIdentifierView {
    Label(Seq<char>),
    OfferId(Seq<char>),
    PaymentHash(Seq<u8>),
    Bolt12PaymentHash(Seq<u8>),
    PaymentId(Seq<u8>),
    CustomId(Seq<char>),
    QuoteId(Seq<char>),
}

impl View for PaymentIdentifier {
    type V = PaymentIdentifierView;

    open spec fn view(&self) -> PaymentIdentifierView {
        match self {
            PaymentIdentifier::Label(s) => PaymentIdentifierView::Label(s@),
            PaymentIdentifier::OfferId(s) => PaymentIdentifierView::OfferId(s@),
            PaymentIdentifier::PaymentHash(h) => PaymentIdentifierView::PaymentHash(h@),
            PaymentIdentifier::Bolt12PaymentHash(h) => PaymentIdentifierView::Bolt12PaymentHash(h@),
            PaymentIdentifier::PaymentId(h) => PaymentIdentifierView::PaymentId(h@),
            PaymentIdentifier::CustomId(s) => PaymentIdentifierView::CustomId(s@),
            PaymentIdentifier::QuoteId(s) => PaymentIdentifierView::QuoteId(s@),
        }
    }
}

/// How far an outgoing payment has come.
#[derive(Clone, Copy, Debug, PartialEq, Eq, Structural)]
pub enum MeltQuoteState {
    Unpaid,
    Paid,
    Pending,
    Unknown,
    Failed,
}

/// Why an operation of the backend failed.
#[derive(Clone, Debug)]
pub enum PaymentError {
    /// The invoice is already paid.
    InvoiceAlreadyPaid,
    /// The payment of the invoice is pending.
    InvoicePaymentPending,
    /// The way of payment is not supported.
    UnsupportedPaymentOption,
    /// The amount is not what is expected.
    AmountMismatch,
    /// The amount cannot be expressed in satoshis.
    Amount,
    /// A payment hash is not thirty-two bytes in hexadecimal.
    InvalidHash,
    /// Blink failed.
    Lightning(BlinkError),
    /// Anything else.
    Custom(String),
}

/// Why an operation of the backend failed, as a value.
pub enum PaymentErrorView {
    InvoiceAlreadyPaid,
    InvoicePaymentPending,
    UnsupportedPaymentOption,
    AmountMismatch,
    Amount,
    InvalidHash,
    Lightning(BlinkErrorView),
    Custom(Seq<char>),
}

impl View for PaymentError {
    type V = PaymentErrorView;

    open spec fn view(&self) -> PaymentErrorView {
        match self {
            PaymentError::InvoiceAlreadyPaid => PaymentErrorView::InvoiceAlreadyPaid,
            PaymentError::InvoicePaymentPending => PaymentErrorView::InvoicePaymentPending,
            PaymentError::UnsupportedPaymentOption => PaymentErrorView::UnsupportedPaymentOption,
            PaymentError::AmountMismatch => PaymentErrorView::AmountMismatch,
            PaymentError::Amount => PaymentErrorView::Amount,
            PaymentError::InvalidHash => PaymentErrorView::InvalidHash,
            PaymentError::Lightning(e) => PaymentErrorView::Lightning(e@),
            PaymentError::Custom(s) => PaymentErrorView::Custom(s@),
        }
    }
}

/// Whether a result is the given error.
pub open spec fn refused<T>(r: Result<T, PaymentError>, e: PaymentErrorView) -> bool {
    r matches Err(x) && x@ == e
}

/// What a BOLT11 invoice is asked for.
#[derive(Clone, Debug)]
pub struct Bolt11IncomingPaymentOptions {
    pub description: Option<String>,
    pub amount: Amount,
    /// When the invoice expires, in seconds of Unix time.
    pub unix_expiry: Option<u64>,
}

/// How a payment is to be received.
#[derive(Clone, Debug)]
pub enum IncomingPaymentOptions {
    Bolt11(Bolt11IncomingPaymentOptions),
    Bolt12,
    Custom,
    Onchain,
}

/// How a payment is to be sent.
#[derive(Clone, Debug)]
pub enum OutgoingPaymentOptions {
    Bolt11(Bolt11Invoice),
    Bolt12,
    Custom,
    Onchain,
}

/// A payment that has been received.
#[derive(Clone, Debug, PartialEq, Eq)]
pub struct WaitPaymentResponse {
    pub payment_identifier: PaymentIdentifier,
    pub payment_amount: Amount,
    pub payment_id: String,
}

/// A payment that has been received, as a value.
pub struct WaitPaymentResponseView {
    pub payment_identifier: PaymentIdentifierView,
    pub payment_amount: AmountView,
    pub payment_id: Seq<char>,
}

impl View for WaitPaymentResponse {
    type V = WaitPaymentResponseView;

    open spec fn view(&self) -> WaitPaymentResponseView {
        WaitPaymentResponseView {
            payment_identifier: self.payment_identifier@,
            payment_amount: self.payment_amount@,
            payment_id: self.payment_id@,
        }
    }
}

/// What happened to a payment.
#[derive(Clone, Debug, PartialEq, Eq)]
pub enum Event {
    PaymentReceived(WaitPaymentResponse),
}

/// A payment request that has been created.
#[derive(Clone, Debug, PartialEq, Eq)]
pub struct CreateIncomingPaymentResponse {
    pub request_lookup_id: PaymentIdentifier,
    pub request: String,
    /// When the request expires, in seconds of Unix time.
    pub expiry: Option<u64>,
    /// Further fields as JSON.
    pub extra_json: Option<String>,
}

/// A payment request that has been created, as a value.
pub struct CreateIncomingPaymentResponseView {
    pub request_lookup_id: PaymentIdentifierView,
    pub request: Seq<char>,
    pub expiry: Option<u64>,
    pub extra_json: Option<Seq<char>>,
}

/// The text of a string that may be absent.
pub open spec fn text_of(o: Option<String>) -> Option<Seq<char>> {
    match o {
        Some(s) => Some(s@),
        None => None,
    }
}

impl View for CreateIncomingPaymentResponse {
    type V = CreateIncomingPaymentResponseView;

    open spec fn view(&self) -> CreateIncomingPaymentResponseView {
        CreateIncomingPaymentResponseView {
            request_lookup_id: self.request_lookup_id@,
            request: self.request@,
            expiry: self.expiry,
            extra_json: text_of(self.extra_json),
        }
    }
}

/// A fee for which an on-chain payment can be made.
#[derive(Clone, Copy, Debug, PartialEq, Eq, Structural)]
pub struct FeeOption {
    pub fee_index: u32,
    pub fee_reserve: u64,
    pub estimated_blocks: u32,
}

/// What an outgoing payment will cost.
#[derive(Clone, Debug, PartialEq, Eq)]
pub struct PaymentQuoteResponse {
    pub request_lookup_id: Option<PaymentIdentifier>,
    pub amount: Amount,
    pub fee: Amount,
    pub state: MeltQuoteState,
    /// Further fields as JSON.
    pub extra_json: Option<String>,
    /// When an on-chain payment is expected to be confirmed.
    pub estimated_blocks: Option<u32>,
    /// The fees among which the payer of an on-chain payment chooses.
    pub fee_options: Option<Vec<FeeOption>>,
}

/// What an outgoing payment will cost, as a value.
pub struct PaymentQuoteResponseView {
    pub request_lookup_id: Option<PaymentIdentifierView>,
    pub amount: AmountView,
    pub fee: AmountView,
    pub state: MeltQuoteState,
    pub extra_json: Option<Seq<char>>,
    pub estimated_blocks: Option<u32>,
    pub fee_options: Option<Seq<FeeOption>>,
}

impl View for PaymentQuoteResponse {
    type V = PaymentQuoteResponseView;

    open spec fn view(&self) -> PaymentQuoteResponseView {
        PaymentQuoteResponseView {
            request_lookup_id: match self.request_lookup_id {
                Some(id) => Some(id@),
                None => None,
            },
            amount: self.amount@,
            fee: self.fee@,
            state: self.state,
            extra_json: text_of(self.extra_json),
            estimated_blocks: self.estimated_blocks,
            fee_options: match self.fee_options {
                Some(options) => Some(options@),
                None => None,
            },
        }
    }
}

/// What became of an outgoing payment.
#[derive(Clone, Debug, PartialEq, Eq)]
pub struct MakePaymentResponse {
    pub payment_lookup_id: PaymentIdentifier,
    pub payment_proof: Option<String>,
    pub status: MeltQuoteState,
    pub total_spent: Amount,
}

/// What became of an outgoing payment, as a value.
pub struct MakePaymentResponseView {
    pub payment_lookup_id: PaymentIdentifierView,
    pub payment_proof: Option<Seq<char>>,
    pub status: MeltQuoteState,
    pub total_spent: AmountView,
}

impl View for MakePaymentResponse {
    type V = MakePaymentResponseView;

    open spec fn view(&self) -> MakePaymentResponseView {
        MakePaymentResponseView {
            payment_lookup_id: self.payment_lookup_id@,
            payment_proof: text_of(self.payment_proof),
            status: self.status,
            total_spent: self.total_spent@,
        }
    }
}

/// What the backend can do with BOLT11 invoices.
#[derive(Clone, Copy, Debug, PartialEq, Eq, Structural)]
pub struct Bolt11Settings {
    /// Payments in several parts.
    pub mpp: bool,
    /// Invoices that leave the amount open.
    pub amountless: bool,
    /// Invoices with a description.
    pub invoice_description: bool,
}

/// What the backend can do with BOLT12 offers.
#[derive(Clone, Copy, Debug, PartialEq, Eq, Structural)]
pub struct Bolt12Settings {
    /// Offers that leave the amount open.
    pub amountless: bool,
}

/// What the backend can do on chain.
#[derive(Clone, Copy, Debug, PartialEq, Eq, Structural)]
pub struct OnchainSettings {
    pub confirmations: u32,
    pub min_receive_amount_sat: u64,
    pub min_send_amount_sat: u64,
}

/// What the backend can do.
#[derive(Clone, Debug, PartialEq, Eq)]
pub struct SettingsResponse {
    pub unit: String,
    pub bolt11: Option<Bolt11Settings>,
    pub bolt12: Option<Bolt12Settings>,
    pub onchain: Option<OnchainSettings>,
    /// Further ways of payment, by name.
    pub custom: Vec<(String, String)>,
}

} // verus!
