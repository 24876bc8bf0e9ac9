//! BOLT11 invoices.

use std::str::FromStr;

use vstd::prelude::*;

verus! {

/// What is read from a BOLT11 invoice.
#[derive(Clone, Debug)]
pub struct Bolt11Invoice {
    /// The invoice as text.
    pub text: String,
    /// The amount in millisatoshis, unless the invoice leaves it open.
    pub amount_msat: Option<u64>,
    /// The hash of the preimage that proves the payment.
    pub payment_hash: [u8; 32],
}

/// What `lightning_invoice` reads from a text: the amount in millisatoshis and
/// the payment hash of the invoice, or why the text is no valid invoice.
pub uninterp spec fn decoded_bolt11(text: Seq<char>) -> Result<(Option<u64>, Seq<u8>), Seq<char>>;

/// `lightning_invoice::Bolt11Invoice::from_str`, with the amount and the payment
/// hash of the invoice, or the error as `Display` writes it: what comes out
/// depends on the text alone.
#[verifier::external_body]
fn decode_bolt11(text: &str) -> (r: Result<(Option<u64>, [u8; 32]), String>)
    ensures
        decoded_bolt11(text@) == (match r {
            Ok((amount_msat, payment_hash)) => Ok::<_, Seq<char>>((amount_msat, payment_hash@)),
            Err(e) => Err(e@),
        }),
{
    match lightning_invoice::Bolt11Invoice::from_str(text) {
        Ok(invoice) => {
            Ok((invoice.amount_milli_satoshis(), *AsRef::<[u8; 32]>::as_ref(invoice.payment_hash())))
        },
        Err(e) => Err(e.to_string()),
    }
}

impl Bolt11Invoice {
    /// Reads an invoice from its text.
    pub fn parse(text: &str) -> (r: Result<Bolt11Invoice, String>)
        ensures
            decoded_bolt11(text@) == (match r {
                Ok(invoice) => Ok::<_, Seq<char>>((invoice.amount_msat, invoice.payment_hash@)),
                Err(e) => Err(e@),
            }),
            r matches Ok(invoice) ==> invoice.text@ == text@,
    {
        match decode_bolt11(text) {
            Ok((amount_msat, payment_hash)) => Ok(
                Bolt11Invoice { text: text.to_string(), amount_msat, payment_hash },
            ),
            Err(e) => Err(e),
        }
    }
}

} // verus!
