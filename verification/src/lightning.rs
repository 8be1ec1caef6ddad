//! What the service asks of the Lightning node, and how it reads the node's answers.

use vstd::prelude::*;
use vstd::string::StringExecFns;
use crate::hexcode::encode_hex;
use crate::model::InvoiceResponse;

verus! {

/// The states of an invoice in the node's `lnrpc` protocol.
#[derive(Clone, Copy, PartialEq, Eq, Structural, Debug)]
pub enum InvoiceState {
    Open,
    Settled,
    Canceled,
    Accepted,
}

impl InvoiceState {
    /// The state that a protocol number stands for (`OPEN = 0`, `SETTLED = 1`,
    /// `CANCELED = 2`, `ACCEPTED = 3`); `None` for any other number.
    pub fn from_i32(value: i32) -> (r: Option<InvoiceState>)
        ensures
            r == (if value == 0 {
                Some(InvoiceState::Open)
            } else if value == 1 {
                Some(InvoiceState::Settled)
            } else if value == 2 {
                Some(InvoiceState::Canceled)
            } else if value == 3 {
                Some(InvoiceState::Accepted)
            } else {
                None
            }),
    {
        if value == 0 {
            Some(InvoiceState::Open)
        } else if value == 1 {
            Some(InvoiceState::Settled)
        } else if value == 2 {
            Some(InvoiceState::Canceled)
        } else if value == 3 {
            Some(InvoiceState::Accepted)
        } else {
            None
        }
    }
}

/// An invoice is settled when its protocol state is `SETTLED`.
pub open spec fn is_settled(state: i32) -> bool {
    state == 1
}

/// The fields of the invoice that the service asks the node to add.
pub struct InvoiceRequest {
    pub memo: String,
    pub value: i64,
    pub expiry: i64,
}

/// Invoices expire an hour after they are issued.
pub const INVOICE_EXPIRY_SECONDS: i64 = 3600;

/// The invoice for one ticket: the ticket's description and price (in satoshis),
/// payable for an hour.
pub fn add_invoice(memo: &str, amount: u32) -> (r: InvoiceRequest)
    ensures
        r.memo@ == memo@,
        r.value == amount as i64,
        r.expiry == INVOICE_EXPIRY_SECONDS,
{
    InvoiceRequest { memo: String::from_str(memo), value: amount as i64, expiry: INVOICE_EXPIRY_SECONDS }
}

/// The gRPC address of the node at `host`.
pub fn lnd_address(host: &str) -> (r: String)
    ensures
        r@ == "https://"@ + host@,
{
    let mut r = String::from_str("https://");
    r.append(host);
    r
}

/// A payment that the node reports as settled: the attendee registered under `hash`
/// has paid, and `preimage` is the secret on their ticket.
pub struct Settlement {
    pub hash: String,
    pub preimage: String,
}

/// What an invoice update in this state, with this payment hash and preimage, settles.
pub open spec fn settlement_outcome(state: i32, r_hash: Seq<u8>, r_preimage: Seq<u8>, r: Option<Settlement>) -> bool {
    match r {
        Some(s) => {
            &&& is_settled(state)
            &&& s.hash@ == crate::hexcode::hex_chars(r_hash)
            &&& s.preimage@ == crate::hexcode::hex_chars(r_preimage)
        },
        None => !is_settled(state),
    }
}

/// Reads one update of the node's invoice subscription: a settled invoice gives the
/// settlement to record (hash and preimage in lower-case hexadecimal); any other
/// state gives nothing.
pub fn invoice(state: i32, r_hash: &[u8], r_preimage: &[u8]) -> (r: Option<Settlement>)
    ensures
        settlement_outcome(state, r_hash@, r_preimage@, r),
{
    match InvoiceState::from_i32(state) {
        Some(InvoiceState::Settled) => Some(Settlement { hash: encode_hex(r_hash), preimage: encode_hex(r_preimage) }),
        _ => None,
    }
}

/// What the lookup of an invoice in this state answers.
pub open spec fn lookup_outcome(state: i32, settle_date: i64, r_preimage: Seq<u8>, memo: String, r: InvoiceResponse) -> bool {
    &&& r.paid == (settle_date > 0)
    &&& r.preimage@ == (if is_settled(state) {
        crate::hexcode::hex_chars(r_preimage)
    } else {
        Seq::<char>::empty()
    })
    &&& r.description == memo
}

/// The answer to a lookup of an invoice, from what the node reports of it: paid once it has
/// a settle date, with the preimage (in hexadecimal) only once it is settled.
pub fn lookup_invoice(state: i32, settle_date: i64, r_preimage: &[u8], memo: String) -> (r: InvoiceResponse)
    ensures
        lookup_outcome(state, settle_date, r_preimage@, memo, r),
{
    let mut preimage = String::new();
    if let Some(s) = InvoiceState::from_i32(state) {
        if s == InvoiceState::Settled {
            preimage = encode_hex(r_preimage);
        }
    }
    InvoiceResponse { paid: settle_date > 0, preimage, description: memo }
}

} // verus!
