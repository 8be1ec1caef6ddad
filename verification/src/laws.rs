//! Properties that span several operations of the library.

use vstd::prelude::*;
use crate::hexcode;
use crate::decimal;
use crate::lightning;
use crate::lightning::Settlement;
use crate::model::{Attendee, User, AddInvoiceResponse};
use crate::registry;
use crate::registry::Key;
use crate::routes;
use crate::routes::{RegistrationAction, VerifyAnswer};
use crate::hexcode::HASH_LEN;

verus! {

/// A payment hash written out by `encode_hex` decodes, through `decode_payment_hash`,
/// back to the same 32 bytes: the hash that the registration hands to the client is the
/// one that the invoice lookup asks the node about.
pub proof fn hash_hex_roundtrip(hash: Seq<u8>)
    requires
        hash.len() == HASH_LEN,
    ensures
        hexcode::hash_decode_result(vstd::utf8::encode_utf8(hexcode::hex_chars(hash)), Ok(hash)),
{
    let chars = hexcode::hex_chars(hash);
    assert(vstd::utf8::is_ascii_chars(chars)) by {
        assert forall|i: int| 0 <= i < chars.len() implies '\0' <= #[trigger] chars[i] <= '\u{7f}' by {
            let b = hash[i / 2];
            assert(0 <= b / 16 < 16 && 0 <= b % 16 < 16);
        }
    }
    vstd::utf8::is_ascii_chars_encode_utf8(chars);
    let data = vstd::utf8::encode_utf8(chars);
    assert forall|j: int| 0 <= j < data.len() implies hexcode::is_hex_byte(#[trigger] data[j]) by {
        assert(chars[j] as u8 == data[j]);
        let b = hash[j / 2];
        assert(0 <= b / 16 < 16 && 0 <= b % 16 < 16);
    }
    assert forall|i: int| 0 <= i < hash.len() implies #[trigger] hexcode::hex_decoded(data)[i] == hash[i] by {
        assert(chars[2 * i] as u8 == data[2 * i]);
        assert(chars[2 * i + 1] as u8 == data[2 * i + 1]);
        assert((2 * i) / 2 == i);
        assert((2 * i + 1) / 2 == i);
        assert((2 * i) % 2 == 0);
        assert((2 * i + 1) % 2 == 1);
        let b = hash[i];
        assert(hexcode::hex_byte_value(data[2 * i]) == b / 16);
        assert(hexcode::hex_byte_value(data[2 * i + 1]) == b % 16);
    }
    assert(hexcode::hex_decoded(data) =~= hash);
}


proof fn nat_digits_spell(n: nat)
    ensures
        decimal::nat_digits(n).len() > 0,
        decimal::all_digits(decimal::nat_digits(n)),
        decimal::digits_value(decimal::nat_digits(n)) == n,
    decreases n,
{
    let s = decimal::nat_digits(n);
    let d = (n % 10) as int;
    assert(decimal::digit_char(d) as int == d + 48);
    if n < 10 {
        assert(s.drop_last() =~= Seq::<char>::empty());
        assert(decimal::digits_value(s.drop_last()) == 0);
    } else {
        nat_digits_spell(n / 10);
        assert(s.drop_last() =~= decimal::nat_digits(n / 10));
    }
    assert(s.last() == decimal::digit_char(d));
    assert(decimal::digits_value(s) == decimal::digits_value(s.drop_last()) * 10 + (s.last() as int - 48));
}

/// Reading back the decimal text that `i32_to_decimal` writes (as std's `str::parse` does)
/// gives the same number: the number-to-text conversion of attendee ids loses nothing.
pub proof fn decimal_roundtrip(n: i32)
    ensures
        decimal::parsed_integer(decimal::decimal(n as int), true) == Some(n as int),
{
    let s = decimal::decimal(n as int);
    if n < 0 {
        nat_digits_spell((-n) as nat);
        assert(s.drop_first() =~= decimal::nat_digits((-n) as nat));
    } else {
        nat_digits_spell(n as nat);
        let d = decimal::nat_digits(n as nat);
        assert(decimal::is_digit_char(d[0]));
    }
}


/// Registration and settlement name an attendee by the same text: for an invoice with
/// payment hash `payment_hash`, the hash that a registration stores (or hands to the user
/// when it offers the invoice) is the hash that the settlement of that invoice reports.
pub proof fn registration_and_settlement_agree(
    user: User,
    memo: Seq<char>,
    amount: u32,
    payment_hash: Seq<u8>,
    payment_request: Seq<char>,
    rows: Seq<Attendee>,
    now: i64,
    r: (RegistrationAction, AddInvoiceResponse),
    state: i32,
    payment_preimage: Seq<u8>,
    settlement: Settlement,
)
    requires
        routes::registration_outcome(user, memo, amount, payment_hash, payment_request, rows, now, r),
        lightning::settlement_outcome(state, payment_hash, payment_preimage, Some(settlement)),
    ensures
        r.0 matches RegistrationAction::Insert(n) ==> n.hash@ == settlement.hash@,
        r.0 matches RegistrationAction::UpdateHash { hash: h, .. } ==> h@ == settlement.hash@,
        !(r.0 is Unchanged) ==> r.1.hash@ == settlement.hash@,
{
}

/// Registration only closes as time passes: once closed at some instant, it stays closed
/// at every later instant (with the same attendees and capacity).
pub proof fn closing_is_permanent_in_time(closing: i64, now: i64, later: i64, paid: nat, max_capacity: i32)
    requires
        routes::registration_closed(closing, now, paid, max_capacity),
        now <= later,
    ensures
        routes::registration_closed(closing, later, paid, max_capacity),
{
}

/// More paid attendees never reopen registration, as long as their number fits in an `i32`
/// (the count is read as an `i32`; past `i32::MAX` it wraps).
pub proof fn closing_is_permanent_in_attendance(closing: i64, now: i64, paid: nat, more: nat, max_capacity: i32)
    requires
        routes::registration_closed(closing, now, paid, max_capacity),
        paid <= more <= i32::MAX,
    ensures
        routes::registration_closed(closing, now, more, max_capacity),
{
}

/// The verification API only ever shows paid attendees: whenever it names a ticket,
/// the attendee it shows has paid.
pub proof fn verified_attendees_have_paid(
    secret: Option<String>,
    email: Option<String>,
    rows: Seq<Attendee>,
    r: VerifyAnswer,
)
    requires
        routes::verify_outcome(secret, email, rows, r),
    ensures
        r.ticket is Some ==> r.response.paid,
        r.response.paid ==> r.ticket is Some,
{
    match secret {
        Some(s) => registry::first_match_facts(rows, Key::Preimage, s@, true),
        None => match email {
            Some(e) => registry::first_match_facts(rows, Key::Email, registry::lowercase(e@), true),
            None => {},
        },
    }
}

/// Paying makes the ticket valid: once the settlement of an attendee's invoice is recorded,
/// the verification API, asked with the settlement's preimage (the ticket's secret),
/// shows a paid attendee with that secret and names that ticket.
pub proof fn settled_ticket_verifies(
    rows: Seq<Attendee>,
    settlement: Settlement,
    email: Option<String>,
    r: VerifyAnswer,
)
    requires
        exists|i: int| 0 <= i < rows.len() && (#[trigger] rows[i]).hash@ == settlement.hash@,
        routes::verify_outcome(
            Some(settlement.preimage),
            email,
            registry::settle_rows(rows, settlement.hash@, settlement.preimage),
            r,
        ),
    ensures
        r.response.paid,
        r.response.preimage@ == settlement.preimage@,
        r.ticket matches Some(t) && t@ == settlement.preimage@,
{
    let settled = registry::settle_rows(rows, settlement.hash@, settlement.preimage);
    let i = choose|i: int| 0 <= i < rows.len() && (#[trigger] rows[i]).hash@ == settlement.hash@;
    assert(registry::row_matches(settled[i], Key::Preimage, settlement.preimage@, true));
    registry::first_match_facts(settled, Key::Preimage, settlement.preimage@, true);
}


/// The hash that a registration hands to the user, for an invoice with a 32-byte payment
/// hash, is read back by `decode_payment_hash` (the invoice lookup) as exactly that payment hash.
pub proof fn registration_hash_decodes(
    user: User,
    memo: Seq<char>,
    amount: u32,
    payment_hash: Seq<u8>,
    payment_request: Seq<char>,
    rows: Seq<Attendee>,
    now: i64,
    r: (RegistrationAction, AddInvoiceResponse),
)
    requires
        routes::registration_outcome(user, memo, amount, payment_hash, payment_request, rows, now, r),
        payment_hash.len() == HASH_LEN,
        !(r.0 is Unchanged),
    ensures
        hexcode::hash_decode_result(vstd::utf8::encode_utf8(r.1.hash@), Ok(payment_hash)),
{
    hash_hex_roundtrip(payment_hash);
}

proof fn paid_count_concat(a: Seq<Attendee>, b: Seq<Attendee>)
    ensures
        registry::paid_count(a + b) == registry::paid_count(a) + registry::paid_count(b),
    decreases b.len(),
{
    if b.len() > 0 {
        paid_count_concat(a, b.drop_last());
        assert((a + b).drop_last() =~= a + b.drop_last());
        assert((a + b).last() == b.last());
    } else {
        assert(a + b =~= a);
    }
}

/// Unpaid rows do not count: adding an unpaid attendee anywhere among the rows (or, read
/// backwards, removing one) changes neither the number of paid attendees nor whether
/// registration is closed.
pub proof fn unpaid_rows_do_not_count(
    rows: Seq<Attendee>,
    i: int,
    a: Attendee,
    closing: i64,
    now: i64,
    max_capacity: i32,
)
    requires
        0 <= i <= rows.len(),
        !a.paid,
    ensures
        registry::paid_count(rows.insert(i, a)) == registry::paid_count(rows),
        routes::registration_closed(closing, now, registry::paid_count(rows.insert(i, a)), max_capacity)
            == routes::registration_closed(closing, now, registry::paid_count(rows), max_capacity),
{
    let front = rows.take(i);
    let back = rows.skip(i);
    assert(rows.insert(i, a) =~= front + (seq![a] + back));
    assert(rows =~= front + back);
    paid_count_concat(front, seq![a] + back);
    paid_count_concat(seq![a], back);
    paid_count_concat(front, back);
    assert(seq![a].drop_last() =~= Seq::<Attendee>::empty());
    assert(registry::paid_count(Seq::<Attendee>::empty()) == 0);
    assert(seq![a].last() == a);
    assert(registry::paid_count(seq![a]) == registry::paid_count(seq![a].drop_last()) + 0);
    assert(registry::paid_count(seq![a]) == 0);
    assert(registry::paid_count(rows.insert(i, a)) == registry::paid_count(front + (seq![a] + back)));
    assert(registry::paid_count(rows) == registry::paid_count(front + back));
}

/// Recording a settlement only ever marks rows as paid, and only the rows stored under the
/// settled hash: those become paid and carry the preimage; every other row is unchanged.
pub proof fn settlement_only_marks_its_rows(rows: Seq<Attendee>, hash: Seq<char>, preimage: String)
    ensures
        registry::settle_rows(rows, hash, preimage).len() == rows.len(),
        forall|i: int|
            0 <= i < rows.len() ==> {
                let after = #[trigger] registry::settle_rows(rows, hash, preimage)[i];
                &&& after.paid == (rows[i].paid || rows[i].hash@ == hash)
                &&& rows[i].hash@ != hash ==> after == rows[i]
                &&& rows[i].hash@ == hash ==> {
                    &&& after.preimage == preimage
                    &&& after == Attendee { preimage: preimage, paid: true, ..rows[i] }
                }
            },
{
}

/// Registration keeps e-mail addresses unique: a new attendee is stored only when no row has
/// the user's address (in lower case), and a hash update leaves every address as it was.
pub proof fn registration_keeps_emails_unique(
    user: User,
    memo: Seq<char>,
    amount: u32,
    payment_hash: Seq<u8>,
    payment_request: Seq<char>,
    rows: Seq<Attendee>,
    now: i64,
    r: (RegistrationAction, AddInvoiceResponse),
    id: i32,
)
    requires
        routes::registration_outcome(user, memo, amount, payment_hash, payment_request, rows, now, r),
        routes::emails_unique(rows),
    ensures
        routes::emails_unique(routes::apply_registration(rows, r.0, id)),
{
    let email = registry::lowercase(user.email@);
    registry::first_match_facts(rows, Key::Email, email, false);
    let after = routes::apply_registration(rows, r.0, id);
    match r.0 {
        RegistrationAction::Insert(n) => {
            assert forall|i: int, j: int|
                0 <= i < after.len() && 0 <= j < after.len() && i != j implies (#[trigger] after[i]).email@
                    != (#[trigger] after[j]).email@ by {
                if i < rows.len() && j < rows.len() {
                    assert(after[i] == rows[i] && after[j] == rows[j]);
                } else if i < rows.len() {
                    assert(after[i] == rows[i]);
                    assert(!registry::row_matches(rows[i], Key::Email, email, false));
                } else {
                    assert(after[j] == rows[j]);
                    assert(!registry::row_matches(rows[j], Key::Email, email, false));
                }
            }
        },
        RegistrationAction::UpdateHash { email: e, hash: h } => {
            assert forall|i: int| 0 <= i < rows.len() implies (#[trigger] after[i]).email@ == rows[i].email@ by {}
            assert forall|i: int, j: int|
                0 <= i < after.len() && 0 <= j < after.len() && i != j implies (#[trigger] after[i]).email@
                    != (#[trigger] after[j]).email@ by {
                assert(after[i].email@ == rows[i].email@);
                assert(after[j].email@ == rows[j].email@);
            }
        },
        RegistrationAction::Unchanged => {},
    }
}

} // verus!
