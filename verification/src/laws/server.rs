//! What holds of the payment processor service.

use vstd::prelude::*;

use crate::blink::rest::{
    BlinkError, Exchange, HttpRequest, InvoiceDetails, RequestStep, Wallet, WalletOperation,
};
use crate::blink::ws::WSClient;
use crate::bolt11::{decoded_bolt11, Bolt11Invoice};
use crate::json::{Json, JsonView};
use crate::laws::backend::down;
use crate::laws::rest::{
    asks_by_hash, asks_by_request, asks_for_wallets, makes_in_right_wallet, right_wallet,
    status_view_asks_by_hash, status_view_asks_by_request, wallets_view_asks,
};
use crate::laws::text::lengths_tell_apart;
use crate::server::{
    Code, CreatePaymentRequest, CreatePaymentResponse, Identifier, IdentifierKind, IdentifierValue,
    IncomingOptions, MakePaymentResponse, OfferQuote, OutgoingLookup, OutgoingOptions,
    OutgoingPayment, PaymentLimits, PaymentProcessorService, PaymentQuoteRequest,
    PaymentQuoteResponse, QuoteState, QuoteStep, RequestedPayment, Status, StreamAction,
    StreamEvent, WaitIncomingPaymentResponse,
};
use crate::settings::Config;
use crate::text::same_ignoring_case;

verus! {

/// Whether an identifier is the payment hash.
pub open spec fn names_hash(identifier: Option<Identifier>, hash: Seq<char>) -> bool {
    identifier matches Some(id) && id.kind == IdentifierKind::PaymentHash && (
    id.value matches Some(IdentifierValue::Hash(h)) && h@ == hash)
}

/// Whether a call failed inside, with a message that ends in the cause.
pub open spec fn failed_inside<T>(r: Result<T, Status>, text: Seq<char>, cause: Seq<char>) -> bool {
    r matches Err(status) && status.code == Code::Internal && status.message@ == text + cause
}

/// Whether a call was refused for its argument.
pub open spec fn was_refused<T>(r: Result<T, Status>, text: Seq<char>) -> bool {
    r matches Err(status) && status.code == Code::InvalidArgument && status.message@ == text
}

// ---------------------------------------------------------------------------
// The service
// ---------------------------------------------------------------------------

/// A service keeps its configuration and asks Blink for the wallets before it is used.
pub proof fn services_ask_blink_first(
    cfg: Config,
    r: Result<(PaymentProcessorService, HttpRequest), BlinkError>,
)
    requires
        call_ensures(PaymentProcessorService::try_new, (cfg,), r),
    ensures
        r matches Ok((service, request)) ==> {
            &&& service.cfg == cfg
            &&& service.blink@.api_key == cfg.backend.api_key@
            &&& service.blink@.wallet_id == cfg.backend.wallet_id@
            &&& asks_for_wallets(request@, service.blink@)
        },
{
    if let Ok((service, request)) = r {
        wallets_view_asks(service.blink@);
    }
}

/// A service is there if and only if Blink answered with data.
pub proof fn services_need_an_answer(
    service: PaymentProcessorService,
    exchange: Exchange<Vec<Wallet>>,
    r: Result<PaymentProcessorService, BlinkError>,
)
    requires
        call_ensures(PaymentProcessorService::connectivity_checked, (service, exchange), r),
    ensures
        r is Ok <==> (exchange matches Exchange::Replied(reply) && reply.data is Some),
        r matches Ok(s) ==> s == service,
        exchange matches Exchange::Failed(reason) ==> r->Err_0@.text() == reason@,
{
}

/// The service says that it takes BOLT11 invoices in satoshis, with an amount and at
/// once.
pub proof fn settings_are_told(service: PaymentProcessorService, r: String)
    requires
        call_ensures(PaymentProcessorService::get_settings, (&service,), r),
    ensures
        r@ == r#"{"bolt11":true, "mpp":false, "unit":"sat", "invoice_description":false, "bolt12":false, "amountless":false}"#@,
{
}

// ---------------------------------------------------------------------------
// Receiving
// ---------------------------------------------------------------------------

/// The invoice is created with the amount that is asked for, and for nothing if none
/// is; its memo is the unit.
pub proof fn invoice_has_the_requested_amount(request: CreatePaymentRequest, r: (u64, String))
    requires
        call_ensures(PaymentProcessorService::create_payment, (request,), r),
    ensures
        request.options matches Some(IncomingOptions::Bolt11 { amount }) ==> r.0 == amount,
        request.options matches Some(IncomingOptions::Bolt12 { amount: Some(a) }) ==> r.0 == a,
        request.options matches Some(IncomingOptions::Bolt12 { amount: None }) ==> r.0 == 0,
        request.options is None ==> r.0 == 0,
        r.1@ == request.unit@,
{
}

/// The request for the invoice names that amount and that memo.
pub proof fn invoice_request_names_the_requested_amount(
    service: PaymentProcessorService,
    request: CreatePaymentRequest,
    order: (u64, String),
    memo: &str,
    wallets: Option<Exchange<Vec<Wallet>>>,
    r: Result<RequestStep, BlinkError>,
)
    requires
        call_ensures(PaymentProcessorService::create_payment, (request,), order),
        memo@ == order.1@,
        call_ensures(PaymentProcessorService::invoice_request, (&service, request, wallets), r),
    ensures
        makes_in_right_wallet(
            r,
            service.blink@,
            WalletOperation::CreateInvoice { amount: order.0, memo },
            wallets,
        ),
{
    right_wallet(
        r,
        service.blink@,
        WalletOperation::CreateInvoice { amount: order.0, memo },
        wallets,
    );
}

/// The created invoice is answered under its payment hash.
pub proof fn created_invoice_is_answered(
    outcome: Result<InvoiceDetails, BlinkError>,
    r: Result<CreatePaymentResponse, Status>,
)
    requires
        call_ensures(PaymentProcessorService::payment_created, (outcome,), r),
    ensures
        match outcome {
            Ok(invoice) => r matches Ok(response) && names_hash(
                response.request_identifier,
                invoice.payment_hash@,
            ) && response.request@ == invoice.payment_request@ && response.expiry is None,
            Err(e) => failed_inside(r, "create invoice failed: "@, e@.text()),
        },
{
}

/// An incoming payment is asked for by the payment hash of the request, and by nothing
/// else.
pub proof fn incoming_payments_are_asked_for_by_hash(
    service: PaymentProcessorService,
    identifier: Option<Identifier>,
    r: Result<(String, HttpRequest), Status>,
)
    requires
        call_ensures(
            PaymentProcessorService::check_incoming_payment,
            (&service, identifier),
            r,
        ),
    ensures
        identifier is None ==> was_refused(r, "missing request_identifier"@),
        identifier matches Some(id) ==> match id.value {
            Some(IdentifierValue::Hash(hash)) => r matches Ok((h, request)) && h@ == hash@
                && asks_by_hash(request@, service.blink@, hash@),
            _ => was_refused(r, "expected payment hash"@),
        },
{
    if let Some(id) = identifier {
        if let Some(IdentifierValue::Hash(hash)) = id.value {
            status_view_asks_by_hash(service.blink@, hash@);
        }
    }
}

/// Whether an amount is that of an invoice in whole satoshis, or nothing if the invoice
/// leaves it open or cannot be read.
pub open spec fn is_whole_amount(amount: u64, payment_request: Seq<char>) -> bool {
    match decoded_bolt11(payment_request) {
        Ok((Some(msat), _)) => 1000 * amount <= msat < 1000 * (amount + 1),
        _ => amount == 0,
    }
}

/// An incoming payment is listed, once, if and only if it is paid.
pub proof fn incoming_payment_is_listed_when_paid(
    hash: String,
    status: String,
    request: String,
    preimage: String,
    r: Result<Vec<WaitIncomingPaymentResponse>, Status>,
)
    requires
        call_ensures(
            PaymentProcessorService::incoming_payment_checked,
            (hash, Ok::<(String, String, String), BlinkError>((status, request, preimage))),
            r,
        ),
    ensures
        r is Ok,
        same_ignoring_case(status@, "PAID"@) ==> r->Ok_0@.len() == 1 && {
            let payment = r->Ok_0@[0];
            &&& names_hash(payment.payment_identifier, hash@)
            &&& is_whole_amount(payment.payment_amount, request@)
            &&& payment.unit@ == "sat"@
            &&& payment.payment_id@ == preimage@
        },
        !same_ignoring_case(status@, "PAID"@) ==> r->Ok_0@.len() == 0,
{
}

// ---------------------------------------------------------------------------
// Quotes
// ---------------------------------------------------------------------------

/// The payment hash of a quote is asked for by the request that is quoted.
pub proof fn quotes_ask_for_the_hash(
    service: PaymentProcessorService,
    request: PaymentQuoteRequest,
    r: HttpRequest,
)
    requires
        call_ensures(PaymentProcessorService::quote_request, (&service, &request), r),
    ensures
        asks_by_request(r@, service.blink@, request.request@),
{
    status_view_asks_by_request(service.blink@, request.request@);
}

/// An invoice is quoted with its whole satoshis, no fee, and the requested unit; an
/// offer is to be quoted by Blink; other requests are refused, as are invoices that
/// cannot be read or leave their amount open.
pub proof fn requests_are_quoted_by_type(
    request: PaymentQuoteRequest,
    status: String,
    hash: String,
    preimage: String,
    r: Result<QuoteStep, Status>,
)
    requires
        call_ensures(
            PaymentProcessorService::get_payment_quote,
            (request, Ok::<(String, String, String), BlinkError>((status, hash, preimage))),
            r,
        ),
    ensures
        request.request_type == 0 ==> match decoded_bolt11(request.request@) {
            Ok((Some(msat), _)) => r matches Ok(QuoteStep::Done(quote)) && {
                &&& names_hash(quote.request_identifier, hash@)
                &&& 1000 * quote.amount <= msat < 1000 * (quote.amount + 1)
                &&& quote.fee == 0
                &&& quote.state == QuoteState::Unknown
                &&& quote.unit@ == request.unit@
            },
            Ok((None, _)) => was_refused(r, "amountless invoice unsupported"@),
            Err(e) => was_refused(r, "invalid bolt11: "@ + e),
        },
        request.request_type == 1 ==> (r matches Ok(QuoteStep::QuoteOffer { offer, unit }) && offer@
            == request.request@ && unit@ == request.unit@),
        request.request_type != 0 && request.request_type != 1 ==> was_refused(
            r,
            "unsupported request type"@,
        ),
{
}

/// A quote whose payment hash could not be looked up fails.
pub proof fn quotes_need_the_hash(
    request: PaymentQuoteRequest,
    e: BlinkError,
    r: Result<QuoteStep, Status>,
)
    requires
        call_ensures(
            PaymentProcessorService::get_payment_quote,
            (request, Err::<(String, String, String), BlinkError>(e)),
            r,
        ),
    ensures
        failed_inside(r, "failed to resolve payment hash from invoice: "@, e@.text()),
{
}

/// The quote of an invoice that has been read is that of its amount.
pub proof fn invoices_are_quoted_by_amount(
    invoice: Result<Bolt11Invoice, String>,
    hash: String,
    unit: String,
    r: Result<PaymentQuoteResponse, Status>,
)
    requires
        call_ensures(PaymentProcessorService::quote_invoice, (invoice, hash, unit), r),
    ensures
        match invoice {
            Ok(i) => match i.amount_msat {
                Some(msat) => r matches Ok(quote) && names_hash(quote.request_identifier, hash@)
                    && 1000 * quote.amount <= msat < 1000 * (quote.amount + 1) && quote.fee == 0
                    && quote.state == QuoteState::Unknown && quote.unit@ == unit@,
                None => was_refused(r, "amountless invoice unsupported"@),
            },
            Err(e) => was_refused(r, "invalid bolt11: "@ + e@),
        },
{
}

/// An offer is quoted with the amount that Blink asks, no fee, and the requested unit.
pub proof fn offers_are_quoted_in_the_requested_unit(
    unit: String,
    outcome: Result<OfferQuote, BlinkError>,
    r: Result<PaymentQuoteResponse, Status>,
)
    requires
        call_ensures(PaymentProcessorService::offer_quoted, (unit, outcome), r),
    ensures
        match outcome {
            Ok(quote) => r matches Ok(response) && response.amount == quote.amount && response.fee
                == 0 && response.unit@ == unit@ && response.state == QuoteState::Unknown
                && response.request_identifier is None,
            Err(e) => failed_inside(r, "offer quote failed: "@, e@.text()),
        },
{
}

// ---------------------------------------------------------------------------
// Sending
// ---------------------------------------------------------------------------

/// The payment is that of the invoice, or of the offer in its place, within the limits
/// of the request.
pub proof fn payments_are_those_requested(options: Option<OutgoingOptions>, r: RequestedPayment)
    requires
        call_ensures(PaymentProcessorService::make_payment, (options,), r),
    ensures
        options matches Some(OutgoingOptions::Bolt11 { bolt11, limits }) ==> r.request@ == bolt11@
            && r.limits == limits,
        options matches Some(OutgoingOptions::Bolt12 { offer, limits }) ==> r.request@ == offer@
            && r.limits == limits,
        options is None ==> r.request@.len() == 0 && r.limits.max_fee_amount is None
            && r.limits.timeout_secs is None,
{
}

/// The requests that probe the fee of a payment and that make it name what is paid and
/// the wallet that pays.
pub proof fn payment_requests_name_what_is_paid(
    service: PaymentProcessorService,
    payment: RequestedPayment,
    bolt11: &str,
    wallets: Option<Exchange<Vec<Wallet>>>,
    fee: Result<RequestStep, BlinkError>,
    pay: Result<RequestStep, BlinkError>,
)
    requires
        bolt11@ == payment.request@,
        call_ensures(PaymentProcessorService::fee_request, (&service, &payment, wallets), fee),
        call_ensures(PaymentProcessorService::payment_request, (&service, &payment, wallets), pay),
    ensures
        makes_in_right_wallet(fee, service.blink@, WalletOperation::ProbeFee { bolt11 }, wallets),
        makes_in_right_wallet(
            pay,
            service.blink@,
            WalletOperation::MakePayment { bolt11 },
            wallets,
        ),
{
    right_wallet(fee, service.blink@, WalletOperation::ProbeFee { bolt11 }, wallets);
    right_wallet(pay, service.blink@, WalletOperation::MakePayment { bolt11 }, wallets);
}

/// A payment is refused for its fee if and only if Blink told a fee above the largest
/// that is allowed.
pub proof fn fees_above_the_limit_are_refused(
    limits: PaymentLimits,
    fee: Result<u64, BlinkError>,
    r: Result<(), Status>,
)
    requires
        call_ensures(PaymentProcessorService::fee_probed, (limits, fee), r),
    ensures
        r is Err <==> (fee matches Ok(f) && (limits.max_fee_amount matches Some(max) && f > max)),
        r is Err ==> was_refused(r, "routing fee exceeds max_fee_amount"@),
{
}

/// The status of a payment that was sent is handed on, and its payment hash is asked
/// for by what was paid.
pub proof fn sent_payments_are_looked_up(
    service: PaymentProcessorService,
    payment: RequestedPayment,
    outcome: Result<String, BlinkError>,
    r: Result<(String, HttpRequest), Status>,
)
    requires
        call_ensures(PaymentProcessorService::payment_sent, (&service, &payment, outcome), r),
    ensures
        match outcome {
            Ok(s) => r matches Ok((sent, request)) && sent@ == s@ && asks_by_request(
                request@,
                service.blink@,
                payment.request@,
            ),
            Err(e) => failed_inside(r, "make payment failed: "@, e@.text()),
        },
{
    status_view_asks_by_request(service.blink@, payment.request@);
}

/// Whether a state is what the status of a sent payment says.
pub open spec fn is_sent_state(state: QuoteState, sent: Seq<char>) -> bool {
    &&& state == QuoteState::Paid <==> sent == "SUCCESS"@
    &&& state == QuoteState::Pending <==> sent == "PENDING"@
    &&& state == QuoteState::Failed <==> sent == "FAILURE"@ || sent == "FAILED"@
}

/// Whether a state is what the status of a payment that was found says.
pub open spec fn is_found_state(state: QuoteState, found: Seq<char>) -> bool {
    &&& state == QuoteState::Paid <==> found == "PAID"@
    &&& state == QuoteState::Pending <==> found == "PENDING"@
    &&& state == QuoteState::Failed <==> found == "FAILED"@
}

/// The words for the states are different.
proof fn words_differ()
    ensures
        "SUCCESS"@ != "PENDING"@ && "SUCCESS"@ != "FAILURE"@ && "SUCCESS"@ != "FAILED"@,
        "PENDING"@ != "FAILURE"@ && "PENDING"@ != "FAILED"@,
        "PAID"@ != "PENDING"@ && "PAID"@ != "FAILED"@,
{
    reveal_strlit("SUCCESS");
    reveal_strlit("PENDING");
    reveal_strlit("FAILURE");
    reveal_strlit("FAILED");
    reveal_strlit("PAID");
    assert("SUCCESS"@[0] == 'S' && "PENDING"@[0] == 'P' && "PENDING"@.len() == 7);
    assert("FAILURE"@[0] == 'F' && "FAILED"@[0] == 'F' && "PAID"@[0] == 'P' && "PAID"@.len() == 4);
}

/// A sent payment is answered with its hash, its status as the proof, the state that
/// the status says, and what it has cost: the whole satoshis of its invoice and the
/// fee.
pub proof fn sent_payments_are_answered(
    payment: RequestedPayment,
    sent: String,
    fee: u64,
    status: String,
    hash: String,
    preimage: String,
    r: Result<MakePaymentResponse, Status>,
)
    requires
        call_ensures(
            PaymentProcessorService::payment_resolved,
            (
                &payment,
                sent,
                fee,
                Ok::<(String, String, String), BlinkError>((status, hash, preimage)),
            ),
            r,
        ),
    ensures
        match decoded_bolt11(payment.request@) {
            Ok((Some(msat), _)) => r matches Ok(response) && {
                &&& names_hash(response.payment_identifier, hash@)
                &&& response.payment_proof matches Some(proof) && proof@ == sent@
                &&& is_sent_state(response.status, sent@)
                &&& response.unit@ == "sat"@
                &&& response.total_spent >= fee
                &&& msat / 1000 + fee <= u64::MAX ==> 1000 * (response.total_spent - fee) <= msat
                    < 1000 * (response.total_spent - fee + 1)
                &&& msat / 1000 + fee > u64::MAX ==> response.total_spent == u64::MAX
            },
            Ok((None, _)) => was_refused(r, "amountless invoice unsupported"@),
            Err(e) => was_refused(r, "invalid bolt11: "@ + e),
        },
{
    words_differ();
}

/// A sent payment whose hash could not be looked up fails.
pub proof fn sent_payments_need_the_hash(
    payment: RequestedPayment,
    sent: String,
    fee: u64,
    e: BlinkError,
    r: Result<MakePaymentResponse, Status>,
)
    requires
        call_ensures(
            PaymentProcessorService::payment_resolved,
            (&payment, sent, fee, Err::<(String, String, String), BlinkError>(e)),
            r,
        ),
    ensures
        failed_inside(r, "failed to resolve payment hash from invoice: "@, e@.text()),
{
}

/// The payment of an invoice that has been read is answered by its amount.
pub proof fn paid_invoices_are_answered_by_amount(
    invoice: Result<Bolt11Invoice, String>,
    hash: String,
    sent: String,
    fee: u64,
    r: Result<MakePaymentResponse, Status>,
)
    requires
        call_ensures(PaymentProcessorService::payment_of_invoice, (invoice, hash, sent, fee), r),
    ensures
        match invoice {
            Ok(i) => match i.amount_msat {
                Some(msat) => r matches Ok(response) && {
                    &&& names_hash(response.payment_identifier, hash@)
                    &&& response.payment_proof matches Some(proof) && proof@ == sent@
                    &&& is_sent_state(response.status, sent@)
                    &&& response.unit@ == "sat"@
                    &&& msat / 1000 + fee <= u64::MAX ==> 1000 * (response.total_spent - fee)
                        <= msat < 1000 * (response.total_spent - fee + 1)
                },
                None => was_refused(r, "amountless invoice unsupported"@),
            },
            Err(e) => was_refused(r, "invalid bolt11: "@ + e@),
        },
{
    words_differ();
}

/// An outgoing payment is looked up by the id or by the payment hash of the request.
pub proof fn outgoing_payments_are_looked_up(
    service: PaymentProcessorService,
    identifier: Option<Identifier>,
    r: Result<OutgoingLookup, Status>,
)
    requires
        call_ensures(
            PaymentProcessorService::check_outgoing_payment,
            (&service, identifier),
            r,
        ),
    ensures
        identifier is None ==> was_refused(r, "missing request_identifier"@),
        identifier matches Some(id) ==> match id.value {
            Some(IdentifierValue::Id(i)) => r matches Ok(OutgoingLookup::ById(x)) && x@ == i@,
            Some(IdentifierValue::Hash(hash)) => r matches Ok(OutgoingLookup::ByHash(h, request))
                && h@ == hash@ && asks_by_hash(request@, service.blink@, hash@),
            None => was_refused(r, "expected payment id or hash"@),
        },
{
    if let Some(id) = identifier {
        if let Some(IdentifierValue::Hash(hash)) = id.value {
            status_view_asks_by_hash(service.blink@, hash@);
        }
    }
}

/// An outgoing payment that is found by its id is answered with its id and its amount.
pub proof fn payments_found_by_id_are_answered(
    outcome: Result<OutgoingPayment, BlinkError>,
    r: Result<MakePaymentResponse, Status>,
)
    requires
        call_ensures(PaymentProcessorService::outgoing_payment_by_id, (outcome,), r),
    ensures
        match outcome {
            Ok(payment) => r matches Ok(response) && {
                &&& response.payment_identifier matches Some(id) && id.kind
                    == IdentifierKind::PaymentId && (id.value matches Some(IdentifierValue::Id(x))
                    && x@ == payment.id@)
                &&& response.payment_proof is None
                &&& response.status == QuoteState::Unknown
                &&& response.total_spent == payment.amount
                &&& response.unit@ == "sat"@
            },
            Err(e) => failed_inside(r, "failed to fetch outgoing payment: "@, e@.text()),
        },
{
}

/// An outgoing payment that is found by its hash is answered with the state that its
/// status says, and with the whole satoshis of its invoice if it is paid.
pub proof fn payments_found_by_hash_are_answered(
    hash: String,
    status: String,
    request: String,
    preimage: String,
    r: Result<MakePaymentResponse, Status>,
)
    requires
        call_ensures(
            PaymentProcessorService::outgoing_payment_by_hash,
            (hash, Ok::<(String, String, String), BlinkError>((status, request, preimage))),
            r,
        ),
    ensures
        r matches Ok(response) && {
            &&& names_hash(response.payment_identifier, hash@)
            &&& response.payment_proof is None
            &&& is_found_state(response.status, status@)
            &&& status@ == "PAID"@ ==> is_whole_amount(response.total_spent, request@)
            &&& status@ != "PAID"@ ==> response.total_spent == 0
            &&& response.unit@ == "sat"@
        },
{
    words_differ();
}

/// Questions that Blink could not answer fail.
pub proof fn unanswered_questions_fail(
    hash: String,
    e: BlinkError,
    incoming: Result<Vec<WaitIncomingPaymentResponse>, Status>,
    outgoing: Result<MakePaymentResponse, Status>,
)
    requires
        call_ensures(
            PaymentProcessorService::incoming_payment_checked,
            (hash, Err::<(String, String, String), BlinkError>(e)),
            incoming,
        ),
        call_ensures(
            PaymentProcessorService::outgoing_payment_by_hash,
            (hash, Err::<(String, String, String), BlinkError>(e)),
            outgoing,
        ),
    ensures
        failed_inside(incoming, "query blink failed: "@, e@.text()),
        failed_inside(outgoing, "failed to check payment by hash: "@, e@.text()),
{
}

// ---------------------------------------------------------------------------
// The stream
// ---------------------------------------------------------------------------

/// Whether a message carries a paid update with a payment hash.
pub open spec fn carries_payment(message: JsonView) -> bool {
    let update = down(
        down(down(down(Some(message), "payload"@), "data"@), "myUpdates"@),
        "update"@,
    );
    let hash = down(down(down(update, "transaction"@), "initiationVia"@), "paymentHash"@);
    &&& down(update, "status"@) matches Some(JsonView::Str(status)) && same_ignoring_case(
        status,
        "PAID"@,
    )
    &&& hash matches Some(JsonView::Str(h)) && h.len() > 0
}

/// Whether a response tells the payment that a message carries: its hash, the settled
/// amount, nothing if that is absent or negative, and its preimage, if any.
pub open spec fn tells_payment(response: WaitIncomingPaymentResponse, message: JsonView) -> bool {
    let update = down(
        down(down(down(Some(message), "payload"@), "data"@), "myUpdates"@),
        "update"@,
    );
    let transaction = down(update, "transaction"@);
    &&& down(down(transaction, "initiationVia"@), "paymentHash"@) matches Some(JsonView::Str(hash))
        && names_hash(response.payment_identifier, hash)
    &&& response.payment_amount == match down(transaction, "settlementAmount"@) {
        Some(JsonView::Number(n)) => match n.signed {
            Some(i) => if i > 0 {
                i as int
            } else {
                0
            },
            None => 0,
        },
        _ => 0,
    }
    &&& response.unit@ == "sat"@
    &&& response.payment_id@ == match down(update, "preimage"@) {
        Some(JsonView::Str(preimage)) => preimage,
        _ => Seq::empty(),
    }
}

/// A message is forwarded if and only if it carries a paid update with a payment hash,
/// and then as what it tells.
pub proof fn paid_updates_are_forwarded(v: Json, r: Option<WaitIncomingPaymentResponse>)
    requires
        call_ensures(PaymentProcessorService::incoming_update, (&v,), r),
    ensures
        r is Some <==> carries_payment(v@),
        r matches Some(response) ==> tells_payment(response, v@),
{
    reveal_strlit("PAID");
    let update = down(
        down(down(down(Some(v@), "payload"@), "data"@), "myUpdates"@),
        "update"@,
    );
    assert(crate::backend::update_of(v@) == update);
    if same_ignoring_case(Seq::empty(), "PAID"@) {
        lengths_tell_apart(Seq::empty(), "PAID"@);
    }
}

/// The stream hands on what carries a payment, goes on over everything else, and ends
/// if and only if the client is gone or the subscription is over.
pub proof fn stream_goes_on_until_the_client_is_gone(event: StreamEvent, r: StreamAction)
    requires
        call_ensures(PaymentProcessorService::wait_incoming_payment, (event,), r),
    ensures
        r is Finish <==> event is ClientClosed || event is UpdatesEnded,
        r is Send <==> (event matches StreamEvent::Update(message) && carries_payment(message@)),
        r matches StreamAction::Send(response) ==> (event matches StreamEvent::Update(message)
            && tells_payment(response, message@)),
{
    reveal_strlit("PAID");
    if let StreamEvent::Update(message) = event {
        let update = down(
            down(down(down(Some(message@), "payload"@), "data"@), "myUpdates"@),
            "update"@,
        );
        assert(crate::backend::update_of(message@) == update);
        if same_ignoring_case(Seq::empty(), "PAID"@) {
            lengths_tell_apart(Seq::empty(), "PAID"@);
        }
    }
}

/// The subscription of the service is that of its own endpoint and key.
pub proof fn subscription_is_that_of_the_service(
    service: PaymentProcessorService,
    r: WSClient,
    url: &str,
    api_key: &str,
    made: WSClient,
)
    requires
        call_ensures(PaymentProcessorService::subscription, (&service,), r),
        url@ == service.blink@.base_url,
        api_key@ == service.blink@.api_key,
        call_ensures(WSClient::new, (url, api_key), made),
    ensures
        r@ == made@,
{
}

} // verus!
