//! What holds of Blink as the payment backend of a mint.

use vstd::prelude::*;

use crate::amount::{msat_to_sat_ceil, Amount, AmountView, CurrencyUnit, CurrencyUnitView};
use crate::backend::{
    count_after_mark, count_after_release, melt_state_of, outgoing_payment, payment_views, relayed,
    settled_sats, status_of, BlinkBackend, InvoiceOrder, PaymentOrder, PaymentStep, RelayActionView,
    RelayEvent, SetupError, SetupStep,
};
use crate::blink::rest::{
    is_default_wallet, BlinkClient, BlinkClientView, BlinkError, ErrorDetail, Exchange,
    GraphqlReply, HttpRequest, InvoiceDetails, RequestStep, Wallet, WalletOperation,
};
use crate::blink::ws::WSClient;
use crate::bolt11::{decoded_bolt11, Bolt11Invoice};
use crate::json::{Json, JsonNumberView, JsonView};
use crate::laws::json::first_entry_is_found;
use crate::laws::rest::{
    asks_by_hash, asks_by_request, asks_for_wallets, creates_invoice,
    default_wallet_is_that_of_the_account, is_wallet_of_account, makes_in_right_wallet,
    pays_invoice, probes_fee, right_wallet, status_view_asks_by_hash, status_view_asks_by_request,
    wallets_view_asks,
};
use crate::laws::text::lengths_tell_apart;
use crate::payment::{
    Bolt11IncomingPaymentOptions, CreateIncomingPaymentResponse, Event, IncomingPaymentOptions,
    MakePaymentResponse, MeltQuoteState, OutgoingPaymentOptions, PaymentError, PaymentErrorView,
    PaymentIdentifier, PaymentIdentifierView, PaymentQuoteResponse, SettingsResponse,
    WaitPaymentResponse,
};
use crate::payment_hash::{hex_reads_back, hex_text, hex_writes_back, is_hex, is_payment_hash};
use crate::settings::BackendConfig;
use crate::text::{
    ascii_lower, contains_text, same_ignoring_case, unicode_lowercase, upper_agrees_with_lower,
};

verus! {

// ---------------------------------------------------------------------------
// Setup
// ---------------------------------------------------------------------------

/// A backend needs an API key, and says so.
pub proof fn api_key_is_required(
    config: BackendConfig,
    r: Result<SetupStep, SetupError>,
    message: String,
)
    requires
        config.api_key@.len() == 0,
        call_ensures(BlinkBackend::new, (&config,), r),
        r matches Err(e) ==> call_ensures(SetupError::message, (&e,), message),
    ensures
        r is Err,
        message@ == "Blink API key is required (set BLINK_API_KEY)"@,
{
}

/// A backend that has a wallet is ready; one that has none asks for those of the
/// account. Either way it uses the client that it is given.
pub proof fn backends_have_a_wallet_or_ask(
    client: Result<BlinkClient, BlinkError>,
    r: Result<SetupStep, SetupError>,
)
    requires
        call_ensures(BlinkBackend::with_client, (client,), r),
    ensures
        match client {
            Ok(c) => if c@.wallet_id.len() > 0 {
                r matches Ok(SetupStep::Ready(backend)) && backend.client@ == c@
            } else {
                r matches Ok(SetupStep::Query(backend, request)) && backend.client@ == c@
                    && asks_for_wallets(request@, c@)
            },
            Err(e) => r matches Err(x) && x@.text() == e@.text(),
        },
{
    if let Ok(c) = client {
        wallets_view_asks(c@);
    }
}

/// A backend without a wallet takes that of the account, and keeps its endpoint and
/// its key.
pub proof fn backends_take_the_wallet_of_the_account(
    backend: BlinkBackend,
    status: u16,
    wallets: Vec<Wallet>,
    errors: Option<Vec<ErrorDetail>>,
    r: Result<BlinkBackend, SetupError>,
)
    requires
        call_ensures(
            BlinkBackend::with_default_wallet,
            (backend, Exchange::Replied(GraphqlReply { status, data: Some(wallets), errors })),
            r,
        ),
    ensures
        wallets@.len() > 0 ==> (r matches Ok(b) && is_wallet_of_account(
            wallets@,
            b.client@.wallet_id,
        ) && b.client@.base_url == backend.client@.base_url && b.client@.api_key
            == backend.client@.api_key),
        wallets@.len() == 0 ==> (r matches Err(e) && e@.text() == "no wallet found"@),
{
    if wallets@.len() > 0 {
        let b = r->Ok_0;
        let i = choose|i: int| #[trigger]
            is_default_wallet(wallets@, i) && b.client@ == (BlinkClientView {
                wallet_id: wallets@[i].id@,
                ..backend.client@
            });
        default_wallet_is_that_of_the_account(wallets@, i);
    }
}

/// A backend whose account could not be asked is not set up.
pub proof fn backends_need_an_answer(
    backend: BlinkBackend,
    exchange: Exchange<Vec<Wallet>>,
    r: Result<BlinkBackend, SetupError>,
)
    requires
        exchange matches Exchange::Replied(reply) ==> reply.data is None,
        call_ensures(BlinkBackend::with_default_wallet, (backend, exchange), r),
    ensures
        r is Err,
{
}

/// The backend offers BOLT11 invoices in satoshis, with an amount and a description,
/// and nothing else.
pub proof fn bolt11_in_satoshis_alone(backend: BlinkBackend, r: SettingsResponse)
    requires
        call_ensures(BlinkBackend::get_settings, (&backend,), r),
    ensures
        r.unit@ == "sat"@,
        r.bolt11 matches Some(s) && !s.mpp && !s.amountless && s.invoice_description,
        r.bolt12 is None && r.onchain is None && r.custom@.len() == 0,
{
}

// ---------------------------------------------------------------------------
// Payment hashes
// ---------------------------------------------------------------------------

/// A payment hash that is written reads back as itself.
pub proof fn hashes_read_back(
    hash: [u8; 32],
    written: Result<String, PaymentError>,
    text: &str,
    read: Result<[u8; 32], PaymentError>,
)
    requires
        call_ensures(
            BlinkBackend::payment_hash_hex,
            (&PaymentIdentifier::PaymentHash(hash),),
            written,
        ),
        written matches Ok(s) ==> text@ == s@,
        call_ensures(BlinkBackend::payment_hash_bytes, (text,), read),
    ensures
        written is Ok,
        read matches Ok(h) && h@ == hash@,
{
    hex_reads_back(hash@);
}

/// A text that is not sixty-four hexadecimal digits is no payment hash; one that is
/// stands for the hash that is written as it, in lower case.
pub proof fn hashes_are_sixty_four_digits(text: &str, r: Result<[u8; 32], PaymentError>)
    requires
        call_ensures(BlinkBackend::payment_hash_bytes, (text,), r),
    ensures
        r is Ok <==> is_hex(text@) && text@.len() == 64,
        r matches Err(e) ==> e@ is InvalidHash,
        r matches Ok(hash) ==> hex_text(hash@) == ascii_lower(text@),
{
    if is_hex(text@) {
        hex_writes_back(text@);
    }
}

/// Only a payment hash identifies a payment at Blink.
pub proof fn only_hashes_identify(id: PaymentIdentifier, r: Result<String, PaymentError>)
    requires
        call_ensures(BlinkBackend::payment_hash_hex, (&id,), r),
    ensures
        r is Ok <==> id is PaymentHash,
        r matches Err(e) ==> e@ == PaymentErrorView::Custom(
            "Unsupported payment identifier type"@,
        ),
{
}

// ---------------------------------------------------------------------------
// States
// ---------------------------------------------------------------------------

/// Whether a status is one of the words for success, letter case aside.
pub open spec fn says_paid(status: Seq<char>) -> bool {
    same_ignoring_case(status, "SUCCESS"@) || same_ignoring_case(status, "PAID"@)
}

/// Whether a status is the word for a payment under way, letter case aside.
pub open spec fn says_pending(status: Seq<char>) -> bool {
    same_ignoring_case(status, "PENDING"@)
}

/// Whether a status is one of the words for failure, letter case aside.
pub open spec fn says_failed(status: Seq<char>) -> bool {
    same_ignoring_case(status, "FAILURE"@) || same_ignoring_case(status, "FAILED"@)
        || same_ignoring_case(status, "EXPIRED"@)
}

/// Whether a state is what a status says.
pub open spec fn is_state(state: MeltQuoteState, status: Seq<char>) -> bool {
    &&& state == MeltQuoteState::Paid <==> says_paid(status)
    &&& state == MeltQuoteState::Pending <==> says_pending(status)
    &&& state == MeltQuoteState::Failed <==> says_failed(status)
    &&& state == MeltQuoteState::Unknown <==> !says_paid(status) && !says_pending(status)
        && !says_failed(status)
    &&& state != MeltQuoteState::Unpaid
}

/// A word in capital letters is its own upper case.
proof fn words_are_in_capitals()
    ensures
        crate::text::ascii_upper("SUCCESS"@) == "SUCCESS"@,
        crate::text::ascii_upper("PAID"@) == "PAID"@,
        crate::text::ascii_upper("PENDING"@) == "PENDING"@,
        crate::text::ascii_upper("FAILURE"@) == "FAILURE"@,
        crate::text::ascii_upper("FAILED"@) == "FAILED"@,
        crate::text::ascii_upper("EXPIRED"@) == "EXPIRED"@,
{
    reveal_strlit("SUCCESS");
    reveal_strlit("PAID");
    reveal_strlit("PENDING");
    reveal_strlit("FAILURE");
    reveal_strlit("FAILED");
    reveal_strlit("EXPIRED");
    assert(crate::text::ascii_upper("SUCCESS"@) =~= "SUCCESS"@);
    assert(crate::text::ascii_upper("PAID"@) =~= "PAID"@);
    assert(crate::text::ascii_upper("PENDING"@) =~= "PENDING"@);
    assert(crate::text::ascii_upper("FAILURE"@) =~= "FAILURE"@);
    assert(crate::text::ascii_upper("FAILED"@) =~= "FAILED"@);
    assert(crate::text::ascii_upper("EXPIRED"@) =~= "EXPIRED"@);
}

/// The words for the states are different.
proof fn words_differ()
    ensures
        "PENDING"@ != "SUCCESS"@ && "PENDING"@ != "PAID"@,
        "FAILURE"@ != "SUCCESS"@ && "FAILURE"@ != "PAID"@ && "FAILURE"@ != "PENDING"@,
        "FAILED"@ != "SUCCESS"@ && "FAILED"@ != "PAID"@ && "FAILED"@ != "PENDING"@,
        "EXPIRED"@ != "SUCCESS"@ && "EXPIRED"@ != "PAID"@ && "EXPIRED"@ != "PENDING"@,
{
    reveal_strlit("SUCCESS");
    reveal_strlit("PAID");
    reveal_strlit("PENDING");
    reveal_strlit("FAILURE");
    reveal_strlit("FAILED");
    reveal_strlit("EXPIRED");
    assert("SUCCESS"@[0] == 'S' && "PAID"@[0] == 'P' && "PAID"@.len() == 4);
    assert("PENDING"@[0] == 'P' && "PENDING"@.len() == 7);
    assert("FAILURE"@[0] == 'F' && "FAILED"@[0] == 'F' && "EXPIRED"@[0] == 'E');
}

/// What the state of a status is.
proof fn state_is_what_the_status_says(status: Seq<char>)
    ensures
        is_state(melt_state_of(status), status),
{
    words_are_in_capitals();
    words_differ();
    upper_agrees_with_lower(status, "SUCCESS"@);
    upper_agrees_with_lower(status, "PAID"@);
    upper_agrees_with_lower(status, "PENDING"@);
    upper_agrees_with_lower(status, "FAILURE"@);
    upper_agrees_with_lower(status, "FAILED"@);
    upper_agrees_with_lower(status, "EXPIRED"@);
}

/// A status is mapped to paid, pending, failed or unknown by its word.
pub proof fn statuses_are_mapped_by_word(status: &str, r: MeltQuoteState)
    requires
        call_ensures(BlinkBackend::melt_state, (status,), r),
    ensures
        is_state(r, status@),
{
    state_is_what_the_status_says(status@);
}

// ---------------------------------------------------------------------------
// Receiving
// ---------------------------------------------------------------------------

/// The invoice that is ordered has the amount that is asked for: as it is in
/// satoshis, and rounded down to them from millisatoshis; with the description and
/// the expiry that are asked for.
pub proof fn invoices_are_ordered_as_asked(
    opts: Bolt11IncomingPaymentOptions,
    r: Result<InvoiceOrder, PaymentError>,
)
    requires
        call_ensures(
            BlinkBackend::create_incoming_payment_request,
            (IncomingPaymentOptions::Bolt11(opts),),
            r,
        ),
    ensures
        r matches Ok(order) ==> {
            &&& order.amount_sats > 0
            &&& opts.amount.unit is Sat ==> order.amount_sats == opts.amount.value
            &&& opts.amount.unit is Msat ==> 1000 * order.amount_sats <= opts.amount.value < 1000
                * (order.amount_sats + 1)
            &&& opts.amount.unit is Sat || opts.amount.unit is Msat
            &&& order.expiry == opts.unix_expiry
            &&& match opts.description {
                Some(d) => order.memo@ == d@,
                None => order.memo@.len() == 0,
            }
        },
        opts.amount.unit is Sat && opts.amount.value > 0 ==> r is Ok,
        opts.amount.unit is Msat && opts.amount.value >= 1000 ==> r is Ok,
        opts.amount.unit is Sat && opts.amount.value == 0 ==> (r matches Err(e) && e@
            is AmountMismatch),
        opts.amount.unit is Msat && opts.amount.value < 1000 ==> (r matches Err(e) && e@
            is AmountMismatch),
        !(opts.amount.unit is Sat) && !(opts.amount.unit is Msat) ==> (r matches Err(e) && e@
            is Amount),
{
}

/// Payments are received and sent by BOLT11 alone.
pub proof fn other_ways_are_unsupported(
    incoming: IncomingPaymentOptions,
    outgoing: OutgoingPaymentOptions,
    r: Result<InvoiceOrder, PaymentError>,
    s: Result<PaymentOrder, PaymentError>,
)
    requires
        !(incoming is Bolt11),
        !(outgoing is Bolt11),
        call_ensures(BlinkBackend::create_incoming_payment_request, (incoming,), r),
        call_ensures(BlinkBackend::payment_order, (outgoing,), s),
    ensures
        r matches Err(e) && e@ is UnsupportedPaymentOption,
        s matches Err(e) && e@ is UnsupportedPaymentOption,
{
}

/// The request for the invoice of an order names its amount in satoshis, unchanged,
/// its memo, and the wallet that is credited.
pub proof fn invoice_request_names_the_amount(
    backend: BlinkBackend,
    order: InvoiceOrder,
    memo: &str,
    wallets: Option<Exchange<Vec<Wallet>>>,
    r: Result<RequestStep, BlinkError>,
)
    requires
        memo@ == order.memo@,
        call_ensures(BlinkBackend::invoice_request, (&backend, &order, wallets), r),
    ensures
        makes_in_right_wallet(
            r,
            backend.client@,
            WalletOperation::CreateInvoice { amount: order.amount_sats, memo },
            wallets,
        ),
        backend.client@.wallet_id.len() > 0 ==> (r matches Ok(RequestStep::Send(request))
            && creates_invoice(
            request@,
            backend.client@,
            backend.client@.wallet_id,
            order.amount_sats,
            order.memo@,
        )),
{
    right_wallet(
        r,
        backend.client@,
        WalletOperation::CreateInvoice { amount: order.amount_sats, memo },
        wallets,
    );
}

/// The mint is answered with the invoice that Blink created, which is looked up by
/// its payment hash, and with the expiry that was asked for.
pub proof fn created_invoice_is_answered(
    order: InvoiceOrder,
    outcome: Result<InvoiceDetails, BlinkError>,
    r: Result<CreateIncomingPaymentResponse, PaymentError>,
)
    requires
        call_ensures(BlinkBackend::incoming_payment_created, (order, outcome), r),
    ensures
        match outcome {
            Ok(invoice) => match r {
                Ok(response) => {
                    &&& response.request@ == invoice.payment_request@
                    &&& response.expiry == order.expiry
                    &&& response.extra_json is None
                    &&& response.request_lookup_id@ matches PaymentIdentifierView::PaymentHash(hash)
                        && hex_text(hash) == ascii_lower(invoice.payment_hash@)
                },
                Err(e) => e@ is InvalidHash && !(is_hex(invoice.payment_hash@)
                    && invoice.payment_hash@.len() == 64),
            },
            Err(e) => r matches Err(x) && x@ == PaymentErrorView::Lightning(e@),
        },
{
    if let Ok(invoice) = outcome {
        if is_payment_hash(invoice.payment_hash@) {
            hex_writes_back(invoice.payment_hash@);
        }
    }
}

/// Whether an amount is that of an invoice: rounded up from millisatoshis, or nothing
/// if the invoice leaves it open or cannot be read.
pub open spec fn is_amount_of_request(amount: u64, payment_request: Seq<char>) -> bool {
    match decoded_bolt11(payment_request) {
        Ok((Some(msat), _)) => msat <= 1000 * amount < msat + 1000,
        _ => amount == 0,
    }
}

/// An incoming payment is reported if and only if Blink says that it is paid: once,
/// for the payment that was asked for, with the amount of its invoice in satoshis and
/// its preimage.
pub proof fn incoming_payment_is_reported_when_paid(
    hash: [u8; 32],
    status: String,
    request: String,
    preimage: String,
    r: Result<Vec<WaitPaymentResponse>, PaymentError>,
)
    requires
        call_ensures(
            BlinkBackend::check_incoming_payment_status,
            (
                &PaymentIdentifier::PaymentHash(hash),
                Ok::<(String, String, String), BlinkError>((status, request, preimage)),
            ),
            r,
        ),
    ensures
        r is Ok,
        r->Ok_0@.len() == 1 <==> same_ignoring_case(status@, "PAID"@),
        r->Ok_0@.len() <= 1,
        r->Ok_0@.len() == 1 ==> {
            let payment = r->Ok_0@[0]@;
            &&& payment.payment_identifier == PaymentIdentifierView::PaymentHash(hash@)
            &&& payment.payment_amount.unit == CurrencyUnitView::Sat
            &&& is_amount_of_request(payment.payment_amount.value, request@)
            &&& payment.payment_id == preimage@
        },
{
    let payments = r->Ok_0@;
    assert(payment_views(payments).len() == payments.len());
    if payments.len() == 1 {
        assert(payment_views(payments)[0] == payments[0]@);
    }
}

/// A failed question for a payment, and one for what is no payment hash, is answered
/// with the error.
pub proof fn failed_questions_are_errors(
    id: PaymentIdentifier,
    outcome: Result<(String, String, String), BlinkError>,
    incoming: Result<Vec<WaitPaymentResponse>, PaymentError>,
    outgoing: Result<MakePaymentResponse, PaymentError>,
)
    requires
        call_ensures(BlinkBackend::check_incoming_payment_status, (&id, outcome), incoming),
        call_ensures(BlinkBackend::check_outgoing_payment, (&id, outcome), outgoing),
    ensures
        incoming is Ok <==> id is PaymentHash && outcome is Ok,
        outgoing is Ok <==> id is PaymentHash && outcome is Ok,
        !(id is PaymentHash) ==> incoming->Err_0@ == PaymentErrorView::Custom(
            "Unsupported payment identifier type"@,
        ) && outgoing->Err_0@ == PaymentErrorView::Custom("Unsupported payment identifier type"@),
        id is PaymentHash ==> (outcome matches Err(e) ==> incoming->Err_0@
            == PaymentErrorView::Lightning(e@) && outgoing->Err_0@ == PaymentErrorView::Lightning(
            e@,
        )),
{
}

/// The status of a payment is asked for by its own hash.
pub proof fn status_is_asked_by_the_hash(
    backend: BlinkBackend,
    id: PaymentIdentifier,
    r: Result<HttpRequest, PaymentError>,
)
    requires
        call_ensures(BlinkBackend::status_request, (&backend, &id), r),
    ensures
        match id {
            PaymentIdentifier::PaymentHash(hash) => r matches Ok(request) && asks_by_hash(
                request@,
                backend.client@,
                hex_text(hash@),
            ),
            _ => r matches Err(e) && e@ == PaymentErrorView::Custom(
                "Unsupported payment identifier type"@,
            ),
        },
{
    if let PaymentIdentifier::PaymentHash(hash) = id {
        status_view_asks_by_hash(backend.client@, hex_text(hash@));
    }
}

// ---------------------------------------------------------------------------
// Sending
// ---------------------------------------------------------------------------

/// An invoice is paid in full: with its amount rounded up to satoshis. One that
/// leaves its amount open, or sets it to nothing, is not paid.
pub proof fn invoices_are_paid_in_full(invoice: Bolt11Invoice, r: Result<u64, PaymentError>)
    requires
        call_ensures(BlinkBackend::invoice_amount_sats, (&invoice,), r),
    ensures
        r matches Ok(sats) ==> sats > 0 && (invoice.amount_msat matches Some(msat) && msat <= 1000
            * sats < msat + 1000),
        r matches Err(e) ==> e@ is AmountMismatch,
        r is Err <==> invoice.amount_msat is None || invoice.amount_msat == Some(0u64),
{
}

/// The payment that is ordered is that of the invoice: its text, its payment hash,
/// and its amount in full.
pub proof fn payments_are_ordered_by_invoice(
    invoice: Bolt11Invoice,
    r: Result<PaymentOrder, PaymentError>,
)
    requires
        call_ensures(BlinkBackend::payment_order, (OutgoingPaymentOptions::Bolt11(invoice),), r),
    ensures
        r matches Ok(order) ==> {
            &&& order.bolt11@ == invoice.text@
            &&& order.payment_hash@ == invoice.payment_hash@
            &&& order.amount_sats > 0
            &&& invoice.amount_msat matches Some(msat) && msat <= 1000 * order.amount_sats < msat
                + 1000
        },
        r matches Err(e) ==> e@ is AmountMismatch,
        r is Err <==> invoice.amount_msat is None || invoice.amount_msat == Some(0u64),
{
}

/// The requests that probe the fee of an order and that pay it name its own invoice
/// and the wallet that pays.
pub proof fn payment_requests_name_the_invoice(
    backend: BlinkBackend,
    order: PaymentOrder,
    bolt11: &str,
    wallets: Option<Exchange<Vec<Wallet>>>,
    probe: Result<RequestStep, BlinkError>,
    payment: Result<RequestStep, BlinkError>,
)
    requires
        bolt11@ == order.bolt11@,
        call_ensures(BlinkBackend::probe_request, (&backend, &order, wallets), probe),
        call_ensures(BlinkBackend::payment_request, (&backend, &order, wallets), payment),
    ensures
        makes_in_right_wallet(
            probe,
            backend.client@,
            WalletOperation::ProbeFee { bolt11 },
            wallets,
        ),
        makes_in_right_wallet(
            payment,
            backend.client@,
            WalletOperation::MakePayment { bolt11 },
            wallets,
        ),
        backend.client@.wallet_id.len() > 0 ==> (probe matches Ok(RequestStep::Send(request))
            && probes_fee(
            request@,
            backend.client@,
            backend.client@.wallet_id,
            order.bolt11@,
        )),
        backend.client@.wallet_id.len() > 0 ==> (payment matches Ok(RequestStep::Send(request))
            && pays_invoice(
            request@,
            backend.client@,
            backend.client@.wallet_id,
            order.bolt11@,
        )),
{
    right_wallet(probe, backend.client@, WalletOperation::ProbeFee { bolt11 }, wallets);
    right_wallet(payment, backend.client@, WalletOperation::MakePayment { bolt11 }, wallets);
}

/// A quote is for the order's payment and its amount, in the requested unit, with the
/// fee that Blink has probed; if the probe failed, with one percent of the amount,
/// rounded down, and one satoshi at least.
pub proof fn quotes_have_the_probed_fee(
    order: PaymentOrder,
    unit: CurrencyUnit,
    fee: Result<u64, BlinkError>,
    r: PaymentQuoteResponse,
)
    requires
        call_ensures(BlinkBackend::get_payment_quote, (&order, &unit, fee), r),
    ensures
        r.amount@.value == order.amount_sats && r.amount@.unit == unit@ && r.fee@.unit == unit@,
        fee matches Ok(f) ==> r.fee@.value == f,
        fee is Err && order.amount_sats >= 100 ==> 100 * r.fee@.value <= order.amount_sats < 100 * (
        r.fee@.value + 1),
        fee is Err && order.amount_sats < 100 ==> r.fee@.value == 1,
        r@.request_lookup_id == Some(PaymentIdentifierView::PaymentHash(order.payment_hash@)),
        r.state == MeltQuoteState::Unpaid,
        r@.extra_json is None && r@.estimated_blocks is None && r@.fee_options is None,
{
}

/// A payment that Blink reports as a success is proved next, by the preimage that
/// Blink tells for the invoice that was paid; any other is answered at once, without
/// a proof and with the state that the status says.
pub proof fn payments_are_answered_by_status(
    backend: BlinkBackend,
    order: PaymentOrder,
    unit: CurrencyUnit,
    status: String,
    r: Result<PaymentStep, PaymentError>,
)
    requires
        call_ensures(
            BlinkBackend::make_payment,
            (&backend, &order, &unit, Ok::<String, BlinkError>(status)),
            r,
        ),
    ensures
        r is Ok,
        r->Ok_0 is FetchProof <==> same_ignoring_case(status@, "SUCCESS"@),
        r->Ok_0 matches PaymentStep::FetchProof(s, request) ==> s@ == status@ && asks_by_request(
            request@,
            backend.client@,
            order.bolt11@,
        ),
        r->Ok_0 matches PaymentStep::Done(response) ==> {
            &&& is_state(response.status, status@)
            &&& response@.payment_proof is None
            &&& response@.payment_lookup_id == PaymentIdentifierView::PaymentHash(
                order.payment_hash@,
            )
            &&& response@.total_spent.value == order.amount_sats
            &&& response@.total_spent.unit == unit@
        },
{
    state_is_what_the_status_says(status@);
    status_view_asks_by_request(backend.client@, order.bolt11@);
}

/// A payment that succeeded is answered with the state that its status says, and with
/// the preimage as its proof if Blink told one that is not empty.
pub proof fn successes_are_proved(
    order: PaymentOrder,
    unit: CurrencyUnit,
    status: &str,
    outcome: Result<(String, String, String), BlinkError>,
    r: MakePaymentResponse,
)
    requires
        call_ensures(BlinkBackend::payment_proved, (&order, &unit, status, outcome), r),
    ensures
        is_state(r.status, status@),
        same_ignoring_case(status@, "SUCCESS"@) ==> r.status == MeltQuoteState::Paid,
        r.payment_proof matches Some(proof) ==> (outcome matches Ok((_, _, preimage)) && proof@
            == preimage@ && proof@.len() > 0),
        outcome matches Ok((_, _, preimage)) ==> (preimage@.len() > 0 ==> r.payment_proof is Some),
        r@.payment_lookup_id == PaymentIdentifierView::PaymentHash(order.payment_hash@),
        r@.total_spent.value == order.amount_sats && r@.total_spent.unit == unit@,
{
    state_is_what_the_status_says(status@);
}

/// A payment that was refused because the invoice is already paid, or because a
/// payment is pending, is answered so; any other refusal is told as it is. The words
/// are looked for in the message in lower case.
pub proof fn refusals_are_told_apart(
    backend: BlinkBackend,
    order: PaymentOrder,
    unit: CurrencyUnit,
    e: BlinkError,
    r: Result<PaymentStep, PaymentError>,
)
    requires
        call_ensures(
            BlinkBackend::make_payment,
            (&backend, &order, &unit, Err::<String, BlinkError>(e)),
            r,
        ),
    ensures
        ({
            let message = unicode_lowercase(e@.text());
            &&& r is Err
            &&& r->Err_0@ is InvoiceAlreadyPaid <==> contains_text(message, "already paid"@)
            &&& r->Err_0@ is InvoicePaymentPending <==> contains_text(message, "pending"@)
                && !contains_text(message, "already paid"@)
            &&& !contains_text(message, "already paid"@) && !contains_text(message, "pending"@)
                ==> r->Err_0@ == PaymentErrorView::Lightning(e@)
        }),
{
}

/// The words that tell refusals apart are looked for in the message that is given.
pub proof fn refusals_are_told_by_message(message: &str, e: BlinkError, r: PaymentError)
    requires
        call_ensures(BlinkBackend::payment_error, (message, e), r),
    ensures
        r@ is InvoiceAlreadyPaid <==> contains_text(message@, "already paid"@),
        r@ is InvoicePaymentPending <==> contains_text(message@, "pending"@) && !contains_text(
            message@,
            "already paid"@,
        ),
        !contains_text(message@, "already paid"@) && !contains_text(message@, "pending"@) ==> r@
            == PaymentErrorView::Lightning(e@),
{
}

/// An outgoing payment is answered with the state that its status says. If it is
/// paid, its cost is the amount of its invoice and its proof the preimage, unless that
/// is empty; if not, it has cost nothing and is not proved.
pub proof fn outgoing_payment_is_answered_by_status(
    hash: [u8; 32],
    status: String,
    request: String,
    preimage: String,
    r: Result<MakePaymentResponse, PaymentError>,
)
    requires
        call_ensures(
            BlinkBackend::check_outgoing_payment,
            (
                &PaymentIdentifier::PaymentHash(hash),
                Ok::<(String, String, String), BlinkError>((status, request, preimage)),
            ),
            r,
        ),
    ensures
        r is Ok,
        ({
            let response = r->Ok_0;
            &&& is_state(response.status, status@)
            &&& response@.payment_lookup_id == PaymentIdentifierView::PaymentHash(hash@)
            &&& response@.total_spent.unit == CurrencyUnitView::Sat
            &&& says_paid(status@) ==> is_amount_of_request(
                response@.total_spent.value,
                request@,
            )
            &&& !says_paid(status@) ==> response@.total_spent.value == 0
            &&& response@.payment_proof matches Some(proof) ==> says_paid(status@) && proof
                == preimage@ && proof.len() > 0
            &&& says_paid(status@) && preimage@.len() > 0 ==> response@.payment_proof is Some
        }),
{
    state_is_what_the_status_says(status@);
}

/// The parts of the two questions that take the amount as an argument answer in the
/// same way.
pub proof fn answers_take_the_amount(
    hash: [u8; 32],
    status: &str,
    amount: u64,
    preimage: String,
    incoming: Vec<WaitPaymentResponse>,
    outgoing: MakePaymentResponse,
)
    requires
        call_ensures(BlinkBackend::incoming_payment, (&hash, status, amount, preimage), incoming),
        call_ensures(BlinkBackend::outgoing_payment, (&hash, status, amount, preimage), outgoing),
    ensures
        incoming@.len() == if same_ignoring_case(status@, "PAID"@) {
            1int
        } else {
            0int
        },
        incoming@.len() == 1 ==> incoming@[0]@.payment_amount == (AmountView {
            value: amount,
            unit: CurrencyUnitView::Sat,
        }) && incoming@[0]@.payment_id == preimage@ && incoming@[0]@.payment_identifier
            == PaymentIdentifierView::PaymentHash(hash@),
        is_state(outgoing.status, status@),
        outgoing@.total_spent.value == if says_paid(status@) {
            amount
        } else {
            0
        },
        outgoing@.payment_lookup_id == PaymentIdentifierView::PaymentHash(hash@),
        outgoing@.payment_proof == if says_paid(status@) && preimage@.len() > 0 {
            Some(preimage@)
        } else {
            None
        },
{
    state_is_what_the_status_says(status@);
    assert(payment_views(incoming@).len() == incoming@.len());
    if incoming@.len() == 1 {
        assert(payment_views(incoming@)[0] == incoming@[0]@);
    }
}

// ---------------------------------------------------------------------------
// Updates
// ---------------------------------------------------------------------------

/// A message with an update: its status, the hash, the amount and the identifier of
/// its transaction.
pub open spec fn update_message(
    status: Seq<char>,
    id: Seq<char>,
    amount: JsonNumberView,
    hash: Seq<char>,
) -> JsonView {
    let transaction = JsonView::Object(
        seq![
            ("id"@, JsonView::Str(id)),
            ("settlementAmount"@, JsonView::Number(amount)),
            (
                "initiationVia"@,
                JsonView::Object(seq![("paymentHash"@, JsonView::Str(hash))]),
            ),
        ],
    );
    let update = JsonView::Object(
        seq![("status"@, JsonView::Str(status)), ("transaction"@, transaction)],
    );
    JsonView::Object(
        seq![
            (
                "payload"@,
                JsonView::Object(
                    seq![
                        (
                            "data"@,
                            JsonView::Object(
                                seq![("myUpdates"@, JsonView::Object(seq![("update"@, update)]))],
                            ),
                        ),
                    ],
                ),
            ),
        ],
    )
}

/// A paid update is a payment received: identified by its hash, of the amount that it
/// settles, nothing if that is negative, under its own identifier. An update that is
/// not paid is none.
pub proof fn paid_updates_are_payments(
    v: Json,
    status: Seq<char>,
    id: Seq<char>,
    amount: JsonNumberView,
    hash: Seq<char>,
    r: Option<Event>,
)
    requires
        v@ == update_message(status, id, amount, hash),
        is_hex(hash) && hash.len() == 64,
        call_ensures(BlinkBackend::ws_event_to_cdk, (&v,), r),
    ensures
        r is Some <==> same_ignoring_case(status, "PAID"@),
        r matches Some(Event::PaymentReceived(payment)) ==> {
            &&& payment@.payment_identifier matches PaymentIdentifierView::PaymentHash(bytes)
                && hex_text(bytes) == ascii_lower(hash)
            &&& payment@.payment_amount.unit == CurrencyUnitView::Sat
            &&& amount.signed matches Some(n) ==> payment@.payment_amount.value == if n > 0 {
                n as int
            } else {
                0
            }
            &&& amount.signed is None ==> payment@.payment_amount.value == 0
            &&& payment@.payment_id == id
        },
{
    update_message_is_read(status, id, amount, hash);
    hex_writes_back(hash);
}

/// What is read from a message with an update.
proof fn update_message_is_read(
    status: Seq<char>,
    id: Seq<char>,
    amount: JsonNumberView,
    hash: Seq<char>,
)
    ensures
        ({
            let message = update_message(status, id, amount, hash);
            &&& crate::backend::update_of(message) matches Some(update) && {
                &&& status_of(update) == status
                &&& crate::backend::hash_of(update) == Some(hash)
                &&& settled_sats(update) == match amount.signed {
                    Some(n) => if n > 0 {
                        n as u64
                    } else {
                        0
                    },
                    None => 0,
                }
                &&& crate::backend::text_at(
                    crate::backend::under(update.field("transaction"@), "id"@),
                ) == Some(id)
                &&& update.field("preimage"@) is None
            }
        }),
{
    reveal_strlit("id");
    reveal_strlit("settlementAmount");
    reveal_strlit("initiationVia");
    reveal_strlit("status");
    reveal_strlit("transaction");
    reveal_strlit("preimage");
    assert("id"@.len() == 2 && "settlementAmount"@.len() == 16 && "initiationVia"@.len() == 13);
    assert("status"@.len() == 6 && "transaction"@.len() == 11 && "preimage"@.len() == 8);
    let message = update_message(status, id, amount, hash);
    let a = message->Object_0;
    first_entry_is_found(a, 0, "payload"@);
    let b = a[0].1->Object_0;
    first_entry_is_found(b, 0, "data"@);
    let c = b[0].1->Object_0;
    first_entry_is_found(c, 0, "myUpdates"@);
    let d = c[0].1->Object_0;
    first_entry_is_found(d, 0, "update"@);
    let update = d[0].1->Object_0;
    first_entry_is_found(update, 0, "status"@);
    first_entry_is_found(update, 1, "transaction"@);
    crate::laws::json::absent_key_is_not_found(update, "preimage"@);
    let transaction = update[1].1->Object_0;
    first_entry_is_found(transaction, 0, "id"@);
    first_entry_is_found(transaction, 1, "settlementAmount"@);
    first_entry_is_found(transaction, 2, "initiationVia"@);
    let via = transaction[2].1->Object_0;
    first_entry_is_found(via, 0, "paymentHash"@);
}

/// What stands under one key after another.
pub open spec fn down(json: Option<JsonView>, key: Seq<char>) -> Option<JsonView> {
    match json {
        Some(JsonView::Object(entries)) => JsonView::Object(entries).field(key),
        _ => None,
    }
}

/// An event is made only of a message whose update is paid and has the payment hash of
/// its transaction, and it tells just that hash, the settled amount, and the
/// identifier of the transaction or, failing that, the hash.
pub proof fn events_are_made_of_paid_updates(v: Json, r: Option<Event>)
    requires
        call_ensures(BlinkBackend::ws_event_to_cdk, (&v,), r),
    ensures
        ({
            let update = down(
                down(down(down(Some(v@), "payload"@), "data"@), "myUpdates"@),
                "update"@,
            );
            let transaction = down(update, "transaction"@);
            let hash = down(down(transaction, "initiationVia"@), "paymentHash"@);
            let paid = down(update, "status"@) matches Some(JsonView::Str(status))
                && same_ignoring_case(status, "PAID"@);
            let hashed = hash matches Some(JsonView::Str(h)) && is_hex(h) && h.len() == 64;
            &&& r is Some <==> paid && hashed
            &&& r matches Some(Event::PaymentReceived(payment)) ==> {
                &&& payment@.payment_identifier matches PaymentIdentifierView::PaymentHash(bytes)
                    && hash matches Some(JsonView::Str(h)) && hex_text(bytes) == ascii_lower(h)
                &&& payment@.payment_amount.unit == CurrencyUnitView::Sat
                &&& payment@.payment_amount.value == match down(
                    transaction,
                    "settlementAmount"@,
                ) {
                    Some(JsonView::Number(n)) => match n.signed {
                        Some(i) => if i > 0 {
                            i as int
                        } else {
                            0
                        },
                        None => 0,
                    },
                    _ => 0,
                }
                &&& payment@.payment_id == match down(transaction, "id"@) {
                    Some(JsonView::Str(id)) => id,
                    _ => hash->0->Str_0,
                }
            }
        }),
{
    reveal_strlit("PAID");
    let update = down(
        down(down(down(Some(v@), "payload"@), "data"@), "myUpdates"@),
        "update"@,
    );
    assert(crate::backend::update_of(v@) == update);
    let hash = down(down(down(update, "transaction"@), "initiationVia"@), "paymentHash"@);
    if let Some(JsonView::Str(h)) = hash {
        if is_hex(h) {
            hex_writes_back(h);
        }
    }
    if same_ignoring_case(Seq::empty(), "PAID"@) {
        lengths_tell_apart(Seq::empty(), "PAID"@);
    }
}

/// The subscription of a backend is that of its own endpoint and key.
pub proof fn subscription_is_that_of_the_client(
    backend: BlinkBackend,
    r: WSClient,
    url: &str,
    api_key: &str,
    made: WSClient,
)
    requires
        call_ensures(BlinkBackend::subscription, (&backend,), r),
        url@ == backend.client@.base_url,
        api_key@ == backend.client@.api_key,
        call_ensures(WSClient::new, (url, api_key), made),
    ensures
        r@ == made@,
{
}

// ---------------------------------------------------------------------------
// Amounts
// ---------------------------------------------------------------------------

/// Satoshis are satoshis, a thousand millisatoshis are one, what is left over is
/// dropped, and other units are no satoshis.
pub proof fn amounts_in_satoshis(amount: Amount, r: Option<u64>)
    requires
        call_ensures(Amount::to_sat, (&amount,), r),
    ensures
        amount.unit is Sat ==> r == Some(amount.value),
        amount.unit is Msat ==> (r matches Some(sats) && 1000 * sats <= amount.value < 1000 * (sats
            + 1)),
        !(amount.unit is Sat) && !(amount.unit is Msat) ==> r is None,
{
}

/// An amount has the value and the unit that it is made of.
pub proof fn amounts_are_what_they_are_made_of(value: u64, unit: CurrencyUnit, r: Amount)
    requires
        call_ensures(Amount::new, (value, unit), r),
    ensures
        r.value == value,
        r@.unit == unit@,
        unit is Sat ==> r.unit is Sat,
        unit is Msat ==> r.unit is Msat,
{
}

/// Millisatoshis are covered by satoshis, with less than one to spare.
pub proof fn millisatoshis_are_covered(msat: u64, r: u64)
    requires
        call_ensures(msat_to_sat_ceil, (msat,), r),
    ensures
        msat <= 1000 * r < msat + 1000,
{
}

// ---------------------------------------------------------------------------
// Payment event streams
// ---------------------------------------------------------------------------

/// A stream ends if and only if it is cancelled, nobody takes its events, or the
/// subscription is over; it hands on what a message is turned into, and goes on
/// otherwise.
pub proof fn streams_end_only_for_a_cause(event: RelayEvent, message: Json, r: Option<Event>)
    requires
        call_ensures(BlinkBackend::ws_event_to_cdk, (&message,), r),
    ensures
        relayed(event) is Finish <==> event is Cancelled || event is ReceiverClosed || event
            is UpdatesEnded || event is SendFailed,
        event is Sent ==> relayed(event) is Wait,
        event == RelayEvent::Update(message) ==> match r {
            Some(Event::PaymentReceived(payment)) => relayed(event) == RelayActionView::Send(
                payment@,
            ),
            None => relayed(event) is Wait,
        },
{
}

/// A stream is counted while it is active: to begin one and to end it leaves the count
/// as it was, to end it again changes nothing, and a stream is active if and only if
/// the count is not zero.
pub proof fn streams_are_counted_while_active(count: usize, r: bool)
    requires
        call_ensures(BlinkBackend::is_payment_event_stream_active, (count,), r),
    ensures
        r <==> count != 0,
        count < usize::MAX ==> count_after_mark(count) == count + 1,
        count > 0 ==> count_after_release(true, count) == count - 1,
        count_after_release(true, count_after_mark(count)) == count,
        count_after_mark(count_after_release(true, count)) == count,
        count_after_release(false, count) == count,
{
}

} // verus!
