//! The records of the registration: attendees as stored, and the answers the service gives.

use vstd::prelude::*;

verus! {

/// A stored registration.  `created_at` is the registration time in microseconds since
/// the Unix epoch (UTC).
pub struct Attendee {
    pub id: i32,
    pub hash: String,
    pub preimage: String,
    pub firstname: String,
    pub lastname: String,
    pub email: String,
    pub data1: String,
    pub paid: bool,
    pub created_at: i64,
}

/// A registration to be stored; the store gives it its `id`.
pub struct NewAttendee {
    pub hash: String,
    pub preimage: String,
    pub firstname: String,
    pub lastname: String,
    pub email: String,
    pub data1: String,
    pub paid: bool,
    pub created_at: i64,
}

/// What a user submits to register.
pub struct User {
    pub firstname: String,
    pub data1: String,
    pub email: String,
}

/// What the verification endpoints show of an attendee.
pub struct AttendeeResponse {
    pub firstname: String,
    pub data1: String,
    pub email: String,
    pub preimage: String,
    pub paid: bool,
}

/// The response shows this attendee.
pub open spec fn shows(r: AttendeeResponse, a: Attendee) -> bool {
    &&& r.firstname@ == a.firstname@
    &&& r.data1@ == a.data1@
    &&& r.email@ == a.email@
    &&& r.preimage@ == a.preimage@
    &&& r.paid == a.paid
}

/// The response shows nobody: empty texts, not paid.
pub open spec fn is_blank(r: AttendeeResponse) -> bool {
    &&& r.firstname@ == Seq::<char>::empty()
    &&& r.data1@ == Seq::<char>::empty()
    &&& r.email@ == Seq::<char>::empty()
    &&& r.preimage@ == Seq::<char>::empty()
    &&& !r.paid
}

impl AttendeeResponse {
    /// The response that shows this attendee.
    pub fn from_attendee(a: &Attendee) -> (r: Self)
        ensures
            shows(r, *a),
    {
        AttendeeResponse {
            firstname: a.firstname.clone(),
            data1: a.data1.clone(),
            email: a.email.clone(),
            preimage: a.preimage.clone(),
            paid: a.paid,
        }
    }
}

impl Default for AttendeeResponse {
    fn default() -> (r: Self)
        ensures
            is_blank(r),
    {
        AttendeeResponse {
            firstname: String::new(),
            data1: String::new(),
            email: String::new(),
            preimage: String::new(),
            paid: false,
        }
    }
}

/// The state of an invoice as the node reports it.
pub struct InvoiceResponse {
    pub paid: bool,
    pub preimage: String,
    pub description: String,
}

/// The answer to a registration: the payment hash to watch and the payment request to pay.
pub struct AddInvoiceResponse {
    pub hash: String,
    pub request: String,
    pub description: String,
    pub amount: u32,
    pub success: bool,
}

} // verus!
