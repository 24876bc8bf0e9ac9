//! What holds of payment hashes, and of the values that payments are told by.

use vstd::prelude::*;

use crate::amount::{Amount, CurrencyUnit, CurrencyUnitView};
use crate::backend::{RelayAction, RelayActionView, SetupError, SetupErrorView};
use crate::payment::{
    CreateIncomingPaymentResponse, Event, MakePaymentResponse, PaymentError, PaymentErrorView,
    PaymentIdentifier, PaymentIdentifierView, PaymentQuoteResponse, WaitPaymentResponse,
};
use crate::payment_hash::{
    decode_payment_hash, encode_payment_hash, hex_bytes, hex_digit, hex_value, is_hex,
};

verus! {

// ---------------------------------------------------------------------------
// Payment hashes
// ---------------------------------------------------------------------------

/// Whether a character is the hexadecimal digit of a number, in small or capital
/// letters.
pub open spec fn stands_for(c: char, n: int) -> bool {
    ||| 0 <= n < 10 && c as int == 48 + n
    ||| 10 <= n < 16 && c as int == 97 + (n - 10)
    ||| 10 <= n < 16 && c as int == 65 + (n - 10)
}

/// Whether a character is a hexadecimal digit.
pub open spec fn is_digit_of_sixteen(c: char) -> bool {
    48 <= c as int <= 57 || 65 <= c as int <= 70 || 97 <= c as int <= 102
}

/// Hexadecimal text is an even number of digits, and each pair of them a byte, the
/// high one first.
pub proof fn two_digits_a_byte(s: Seq<char>, k: int, high: int, low: int)
    requires
        0 <= k < s.len() / 2,
        stands_for(s[2 * k], high),
        stands_for(s[2 * k + 1], low),
    ensures
        is_hex(s) <==> s.len() % 2 == 0 && forall|i: int|
            0 <= i < s.len() ==> is_digit_of_sixteen(#[trigger] s[i]),
        hex_bytes(s).len() == s.len() / 2,
        hex_bytes(s)[k] == 16 * high + low,
{
    assert(hex_value(s[2 * k]) == Some(high));
    assert(hex_value(s[2 * k + 1]) == Some(low));
    hexadecimal_text(s);
}

/// Hexadecimal text is an even number of digits.
proof fn hexadecimal_text(s: Seq<char>)
    ensures
        is_hex(s) <==> s.len() % 2 == 0 && forall|i: int|
            0 <= i < s.len() ==> is_digit_of_sixteen(#[trigger] s[i]),
{
    if is_hex(s) {
        assert forall|i: int| 0 <= i < s.len() implies is_digit_of_sixteen(#[trigger] s[i]) by {
            assert(hex_value(s[i]) is Some);
        }
    } else if s.len() % 2 == 0 {
        let i = choose|i: int| 0 <= i < s.len() && hex_value(#[trigger] s[i]) is None;
        assert(!is_digit_of_sixteen(s[i]));
    }
}

/// A payment hash is read from sixty-four hexadecimal digits, and from nothing else;
/// each of its bytes is that of two digits.
pub proof fn hashes_are_read_from_digits(
    s: &str,
    r: Option<[u8; 32]>,
    k: int,
    high: int,
    low: int,
)
    requires
        call_ensures(decode_payment_hash, (s,), r),
        0 <= k < 32,
    ensures
        r is Some <==> s@.len() == 64 && forall|i: int|
            0 <= i < 64 ==> is_digit_of_sixteen(#[trigger] s@[i]),
        r matches Some(hash) ==> (stands_for(s@[2 * k], high) && stands_for(s@[2 * k + 1], low)
            ==> hash@[k] == 16 * high + low),
{
    hexadecimal_text(s@);
    if r is Some && stands_for(s@[2 * k], high) && stands_for(s@[2 * k + 1], low) {
        two_digits_a_byte(s@, k, high, low);
    }
}

/// A payment hash is written in sixty-four digits, two for each byte, the high one
/// first, in small letters.
pub proof fn hashes_are_written_in_digits(hash: [u8; 32], r: String, k: int)
    requires
        call_ensures(encode_payment_hash, (&hash,), r),
        0 <= k < 32,
    ensures
        r@.len() == 64,
        stands_for(r@[2 * k], hash@[k] as int / 16),
        stands_for(r@[2 * k + 1], hash@[k] as int % 16),
        !(65 <= r@[2 * k] as int <= 70) && !(65 <= r@[2 * k + 1] as int <= 70),
{
    assert((2 * k) / 2 == k && (2 * k) % 2 == 0);
    assert((2 * k + 1) / 2 == k && (2 * k + 1) % 2 == 1);
    assert(r@[2 * k] == hex_digit(hash@[k] as int / 16));
    assert(r@[2 * k + 1] == hex_digit(hash@[k] as int % 16));
}

// ---------------------------------------------------------------------------
// What values hold
// ---------------------------------------------------------------------------

/// An identifier is told with its kind and what it holds.
pub proof fn identifiers_are_told(id: PaymentIdentifier)
    ensures
        id matches PaymentIdentifier::Label(s) ==> id@ == PaymentIdentifierView::Label(s@),
        id matches PaymentIdentifier::OfferId(s) ==> id@ == PaymentIdentifierView::OfferId(s@),
        id matches PaymentIdentifier::PaymentHash(h) ==> id@ == PaymentIdentifierView::PaymentHash(
            h@,
        ),
        id matches PaymentIdentifier::Bolt12PaymentHash(h) ==> id@
            == PaymentIdentifierView::Bolt12PaymentHash(h@),
        id matches PaymentIdentifier::PaymentId(h) ==> id@ == PaymentIdentifierView::PaymentId(h@),
        id matches PaymentIdentifier::CustomId(s) ==> id@ == PaymentIdentifierView::CustomId(s@),
        id matches PaymentIdentifier::QuoteId(s) ==> id@ == PaymentIdentifierView::QuoteId(s@),
{
}

/// A failure is told with its kind and its cause.
pub proof fn failures_are_told(e: PaymentError, setup: SetupError)
    ensures
        e is InvoiceAlreadyPaid <==> e@ is InvoiceAlreadyPaid,
        e is InvoicePaymentPending <==> e@ is InvoicePaymentPending,
        e is UnsupportedPaymentOption <==> e@ is UnsupportedPaymentOption,
        e is AmountMismatch <==> e@ is AmountMismatch,
        e is Amount <==> e@ is Amount,
        e is InvalidHash <==> e@ is InvalidHash,
        e matches PaymentError::Lightning(cause) ==> e@ == PaymentErrorView::Lightning(cause@),
        e matches PaymentError::Custom(text) ==> e@ == PaymentErrorView::Custom(text@),
        setup is MissingApiKey <==> setup@ is MissingApiKey,
        setup matches SetupError::Client(cause) ==> setup@ == SetupErrorView::Client(cause@),
{
}

/// An amount is told with its value and its unit, and a copy of the unit is the same.
pub proof fn amounts_are_told(amount: Amount, unit: CurrencyUnit, copied: CurrencyUnit)
    requires
        call_ensures(CurrencyUnit::copy, (&unit,), copied),
    ensures
        amount@.value == amount.value,
        amount@.unit == amount.unit@,
        unit is Sat <==> unit@ is Sat,
        unit is Msat <==> unit@ is Msat,
        unit is Usd <==> unit@ is Usd,
        unit is Eur <==> unit@ is Eur,
        unit is Auth <==> unit@ is Auth,
        unit matches CurrencyUnit::Custom(name) ==> unit@ == CurrencyUnitView::Custom(name@),
        copied@ == unit@,
{
}

/// A response is told with all that it holds.
pub proof fn responses_are_told(
    action: RelayAction,
    received: WaitPaymentResponse,
    created: CreateIncomingPaymentResponse,
    quote: PaymentQuoteResponse,
    made: MakePaymentResponse,
)
    ensures
        action is Wait <==> action@ is Wait,
        action is Finish <==> action@ is Finish,
        action == RelayAction::Send(Event::PaymentReceived(received)) ==> action@
            == RelayActionView::Send(received@),
        received@.payment_identifier == received.payment_identifier@,
        received@.payment_amount == received.payment_amount@,
        received@.payment_id == received.payment_id@,
        created@.request_lookup_id == created.request_lookup_id@,
        created@.request == created.request@,
        created@.expiry == created.expiry,
        created.extra_json is None <==> created@.extra_json is None,
        quote.request_lookup_id matches Some(id) ==> quote@.request_lookup_id == Some(id@),
        quote.request_lookup_id is None ==> quote@.request_lookup_id is None,
        quote@.amount == quote.amount@,
        quote@.fee == quote.fee@,
        quote@.state == quote.state,
        quote.extra_json is None <==> quote@.extra_json is None,
        quote@.estimated_blocks == quote.estimated_blocks,
        quote.fee_options is None <==> quote@.fee_options is None,
        made@.payment_lookup_id == made.payment_lookup_id@,
        made.payment_proof matches Some(proof) ==> made@.payment_proof == Some(proof@),
        made.payment_proof is None ==> made@.payment_proof is None,
        made@.status == made.status,
        made@.total_spent == made.total_spent@,
{
}

} // verus!
