//! The decisions behind the web endpoints: whether registration is open, what a
//! registration does to the store, what the verification pages show.

use vstd::prelude::*;
use vstd::string::StringExecFns;
use crate::hexcode::encode_hex;
use crate::model::{AddInvoiceResponse, Attendee, AttendeeResponse, NewAttendee, User};
use crate::registry::{count_paid, find_first, to_lowercase, Key};

verus! {

/// The Unix time (seconds) of an RFC 3339 date-time, or `None` where the text is not one.
pub uninterp spec fn rfc3339_timestamp(s: Seq<char>) -> Option<i64>;

/// `chrono::DateTime::parse_from_rfc3339` followed by `DateTime::timestamp`: the instant
/// that the text names, in seconds since the Unix epoch; the parse error is dropped.
/// Only named: the RFC 3339 grammar is not restated.
#[verifier::external_body]
fn parse_rfc3339_timestamp(s: &str) -> (r: Option<i64>)
    ensures
        r == rfc3339_timestamp(s@),
{
    match chrono::DateTime::parse_from_rfc3339(s) {
        Ok(d) => Some(d.timestamp()),
        Err(_) => None,
    }
}

/// Registration is closed once the closing time has passed, or once the number of paid
/// attendees (read as an `i32`) reaches the capacity.
pub open spec fn registration_closed(closing: i64, now: i64, paid: nat, max_capacity: i32) -> bool {
    now > closing || (paid as i32) >= max_capacity
}

/// What the landing page decides about registration.
pub open spec fn index_outcome(closing_date: Seq<char>, now: i64, rows: Seq<Attendee>, max_capacity: i32, r: Option<bool>) -> bool {
    match rfc3339_timestamp(closing_date) {
        Some(closing) => r == Some(
            registration_closed(closing, now, crate::registry::paid_count(rows), max_capacity),
        ),
        None => r is None,
    }
}

/// Whether the landing page shows registration as closed, given the configured closing
/// date (RFC 3339), the current Unix time, the stored attendees and the capacity.
/// `None` when the closing date is not an RFC 3339 date-time.
pub fn index(closing_date: &str, now: i64, rows: &Vec<Attendee>, max_capacity: i32) -> (r: Option<bool>)
    ensures
        index_outcome(closing_date@, now, rows@, max_capacity, r),
{
    match parse_rfc3339_timestamp(closing_date) {
        Some(closing) => {
            let paid = count_paid(rows);
            Some(now > closing || paid as i32 >= max_capacity)
        },
        None => None,
    }
}

/// What the verification page for a ticket secret shows.
pub open spec fn verify_user_outcome(secret: Seq<char>, rows: Seq<Attendee>, r: AttendeeResponse) -> bool {
    match crate::registry::first_match(rows, Key::Preimage, secret, false) {
        Some(i) => crate::model::shows(r, rows[i]),
        None => crate::model::is_blank(r),
    }
}

/// The verification page for a ticket secret: the first attendee (paid or not) whose
/// preimage is `secret`, or a blank answer.
pub fn verify_user(secret: &str, rows: &Vec<Attendee>) -> (r: AttendeeResponse)
    ensures
        verify_user_outcome(secret@, rows@, r),
{
    let key = String::from_str(secret);
    match find_first(rows, Key::Preimage, &key, false) {
        Some(i) => AttendeeResponse::from_attendee(&rows[i]),
        None => AttendeeResponse::default(),
    }
}

/// What the verification API answers, and the ticket (by preimage) that has to exist
/// for the attendee it shows.
pub struct VerifyAnswer {
    pub response: AttendeeResponse,
    pub ticket: Option<String>,
}

/// The answer shows row `m` of `rows` and names its ticket, or, without a row, is blank.
pub open spec fn answers_with(r: VerifyAnswer, rows: Seq<Attendee>, m: Option<int>) -> bool {
    match m {
        Some(i) => {
            &&& crate::model::shows(r.response, rows[i])
            &&& r.ticket matches Some(t) && t@ == rows[i].preimage@
        },
        None => crate::model::is_blank(r.response) && r.ticket is None,
    }
}

/// What the verification API answers for these parameters and stored rows.
pub open spec fn verify_outcome(secret: Option<String>, email: Option<String>, rows: Seq<Attendee>, r: VerifyAnswer) -> bool {
    match secret {
        Some(s) => answers_with(r, rows, crate::registry::first_match(rows, Key::Preimage, s@, true)),
        None => match email {
            Some(e) => answers_with(
                r,
                rows,
                crate::registry::first_match(rows, Key::Email, crate::registry::lowercase(e@), true),
            ),
            None => answers_with(r, rows, None),
        },
    }
}

/// The verification API: by ticket secret when one is given, else by e-mail address
/// (compared in lower case); only paid attendees are found.
pub fn verify(secret: Option<String>, email: Option<String>, rows: &Vec<Attendee>) -> (r: VerifyAnswer)
    ensures
        verify_outcome(secret, email, rows@, r),
{
    let found = match secret {
        Some(s) => find_first(rows, Key::Preimage, &s, true),
        None => match email {
            Some(e) => {
                let lower = to_lowercase(e.as_str());
                find_first(rows, Key::Email, &lower, true)
            },
            None => None,
        },
    };
    match found {
        Some(i) => VerifyAnswer {
            response: AttendeeResponse::from_attendee(&rows[i]),
            ticket: Some(rows[i].preimage.clone()),
        },
        None => VerifyAnswer { response: AttendeeResponse::default(), ticket: None },
    }
}

/// What a registration does to the store.
pub enum RegistrationAction {
    /// Store a new attendee.
    Insert(NewAttendee),
    /// Give the attendees with this e-mail address the new payment hash.
    UpdateHash { email: String, hash: String },
    /// Leave the store as it is.
    Unchanged,
}

/// The rows after a registration's action is carried out: an inserted attendee comes last
/// and is given `id`; a hash update gives every row with that e-mail address the new hash.
pub open spec fn apply_registration(rows: Seq<Attendee>, action: RegistrationAction, id: i32) -> Seq<Attendee> {
    match action {
        RegistrationAction::Insert(n) => rows.push(
            Attendee {
                id: id,
                hash: n.hash,
                preimage: n.preimage,
                firstname: n.firstname,
                lastname: n.lastname,
                email: n.email,
                data1: n.data1,
                paid: n.paid,
                created_at: n.created_at,
            },
        ),
        RegistrationAction::UpdateHash { email, hash } => rows.map_values(
            |a: Attendee|
                if a.email@ == email@ {
                    Attendee { hash: hash, ..a }
                } else {
                    a
                },
        ),
        RegistrationAction::Unchanged => rows,
    }
}

/// No two rows share an e-mail address.
pub open spec fn emails_unique(rows: Seq<Attendee>) -> bool {
    forall|i: int, j: int|
        0 <= i < rows.len() && 0 <= j < rows.len() && i != j ==> (#[trigger] rows[i]).email@
            != (#[trigger] rows[j]).email@
}

/// The response carries the new invoice.
pub open spec fn offers_invoice(
    r: AddInvoiceResponse,
    hash: Seq<char>,
    payment_request: Seq<char>,
    memo: Seq<char>,
    amount: u32,
) -> bool {
    &&& r.hash@ == hash
    &&& r.request@ == payment_request
    &&& r.description@ == memo
    &&& r.amount == amount
    &&& r.success
}

/// What a registration does, given the invoice the node issued and the stored rows.
pub open spec fn registration_outcome(
    user: User,
    memo: Seq<char>,
    amount: u32,
    payment_hash: Seq<u8>,
    payment_request: Seq<char>,
    rows: Seq<Attendee>,
    now: i64,
    r: (RegistrationAction, AddInvoiceResponse),
) -> bool {
    let hash = crate::hexcode::hex_chars(payment_hash);
    let email = crate::registry::lowercase(user.email@);
    match crate::registry::first_match(rows, Key::Email, email, false) {
        None => {
            &&& r.0 matches RegistrationAction::Insert(n) && {
                &&& n.hash@ == hash
                &&& n.preimage@ == Seq::<char>::empty()
                &&& n.firstname@ == user.firstname@
                &&& n.lastname@ == Seq::<char>::empty()
                &&& n.email@ == email
                &&& n.data1@ == user.data1@
                &&& !n.paid
                &&& n.created_at == now
            }
            &&& offers_invoice(r.1, hash, payment_request, memo, amount)
        },
        Some(i) => if rows[i].paid {
            &&& r.0 is Unchanged
            &&& r.1.hash@ == rows[i].hash@
            &&& r.1.request@ == Seq::<char>::empty()
            &&& r.1.description@ == Seq::<char>::empty()
            &&& r.1.amount == amount
            &&& r.1.success
        } else {
            &&& r.0 matches RegistrationAction::UpdateHash { email: e, hash: h }
                && e@ == crate::registry::lowercase(rows[i].email@) && h@ == hash
            &&& offers_invoice(r.1, hash, payment_request, memo, amount)
        },
    }
}

/// A registration, once the node has issued an invoice (payment hash `payment_hash`,
/// payment request `payment_request`) for `amount` with description `memo`, and the store
/// has been read.  The user is looked up by e-mail address in lower case:
/// - unknown: a new unpaid attendee is stored under the invoice's hash, and the invoice is offered;
/// - known and paid: nothing changes, and the answer carries the stored hash and no invoice;
/// - known and unpaid: the stored hash is replaced by the invoice's, and the invoice is offered.
pub fn create_invoice(
    user: &User,
    memo: &str,
    amount: u32,
    payment_hash: &[u8],
    payment_request: &str,
    rows: &Vec<Attendee>,
    now: i64,
) -> (r: (RegistrationAction, AddInvoiceResponse))
    ensures
        registration_outcome(*user, memo@, amount, payment_hash@, payment_request@, rows@, now, r),
{
    let hash = encode_hex(payment_hash);
    let email = to_lowercase(user.email.as_str());
    match find_first(rows, Key::Email, &email, false) {
        None => {
            let new_attendee = NewAttendee {
                hash: hash.clone(),
                preimage: String::new(),
                firstname: user.firstname.clone(),
                lastname: String::new(),
                email: to_lowercase(user.email.as_str()),
                data1: user.data1.clone(),
                paid: false,
                created_at: now,
            };
            let response = AddInvoiceResponse {
                hash,
                request: String::from_str(payment_request),
                description: String::from_str(memo),
                amount,
                success: true,
            };
            (RegistrationAction::Insert(new_attendee), response)
        },
        Some(i) => {
            let attendee = &rows[i];
            if attendee.paid {
                let response = AddInvoiceResponse {
                    hash: attendee.hash.clone(),
                    request: String::new(),
                    description: String::new(),
                    amount,
                    success: true,
                };
                (RegistrationAction::Unchanged, response)
            } else {
                let target = to_lowercase(attendee.email.as_str());
                let response = AddInvoiceResponse {
                    hash: hash.clone(),
                    request: String::from_str(payment_request),
                    description: String::from_str(memo),
                    amount,
                    success: true,
                };
                (RegistrationAction::UpdateHash { email: target, hash }, response)
            }
        },
    }
}

/// Whether the token given in the request is the configured one.
pub fn authorize(expected: &str, token: &str) -> (r: bool)
    ensures
        r == (expected@ == token@),
{
    String::from_str(expected) == String::from_str(token)
}

/// The text of the answer to a request for a path that does not exist.
pub fn not_found(uri: &str) -> (r: String)
    ensures
        r@ == "Oh no! We couldn't find the requested path '"@ + uri@ + "'"@,
{
    let mut r = String::from_str("Oh no! We couldn't find the requested path '");
    r.append(uri);
    r.append("'");
    r
}

} // verus!
