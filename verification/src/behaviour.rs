//! What each operation is for, stated over its contract: for every input, the result that
//! the operation's `ensures` admits has the properties below.

use vstd::prelude::*;
use crate::hexcode;
use crate::lightning;
use crate::lightning::Settlement;
use crate::model::{AddInvoiceResponse, Attendee, AttendeeResponse, InvoiceResponse, User};
use crate::registry;
use crate::registry::Key;
use crate::routes;
use crate::routes::{RegistrationAction, VerifyAnswer};
use crate::excel;
use crate::excel::Cell;
use crate::decimal;

verus! {

/// The value of a lower-case hexadecimal digit.
pub open spec fn lower_hex_digit_value(c: char) -> int {
    if c <= '9' {
        c as int - 48
    } else {
        c as int - 87
    }
}

/// `text` is the lower-case hexadecimal of `bytes`: two digits (`0-9`, `a-f`) per byte,
/// high digit first, nothing else.
pub open spec fn spells_lower_hex(text: Seq<char>, bytes: Seq<u8>) -> bool {
    &&& text.len() == 2 * bytes.len()
    &&& forall|k: int| 0 <= k < text.len() ==> ('0' <= #[trigger] text[k] <= '9' || 'a' <= text[k] <= 'f')
    &&& forall|i: int|
        0 <= i < bytes.len() ==> #[trigger] bytes[i] == lower_hex_digit_value(text[2 * i]) * 16
            + lower_hex_digit_value(text[2 * i + 1])
}

/// `encode_hex` writes the lower-case hexadecimal of every byte it is given, whatever their
/// number.
pub proof fn encoded_hex_spells_bytes(bytes: Seq<u8>)
    ensures
        spells_lower_hex(hexcode::hex_chars(bytes), bytes),
{
    let text = hexcode::hex_chars(bytes);
    assert forall|k: int| 0 <= k < text.len() implies ('0' <= #[trigger] text[k] <= '9' || 'a' <= text[k] <= 'f') by {
        let b = bytes[k / 2];
        let n: int = if k % 2 == 0 { (b / 16) as int } else { (b % 16) as int };
        assert(0 <= n < 16);
        assert(text[k] == hexcode::nibble_char(n));
        if n < 10 {
            assert(hexcode::nibble_char(n) as int == n + 48);
        } else {
            assert(hexcode::nibble_char(n) as int == n + 87);
        }
    }
    assert forall|i: int| 0 <= i < bytes.len() implies #[trigger] bytes[i] == lower_hex_digit_value(text[2 * i]) * 16
        + lower_hex_digit_value(text[2 * i + 1]) by {
        let b = bytes[i];
        assert((2 * i) / 2 == i && (2 * i) % 2 == 0);
        assert((2 * i + 1) / 2 == i && (2 * i + 1) % 2 == 1);
        let hi = (b / 16) as int;
        let lo = (b % 16) as int;
        assert(text[2 * i] == hexcode::nibble_char(hi));
        assert(text[2 * i + 1] == hexcode::nibble_char(lo));
        if hi < 10 {
            assert(hexcode::nibble_char(hi) as int == hi + 48);
        } else {
            assert(hexcode::nibble_char(hi) as int == hi + 87);
        }
        if lo < 10 {
            assert(hexcode::nibble_char(lo) as int == lo + 48);
        } else {
            assert(hexcode::nibble_char(lo) as int == lo + 87);
        }
    }
}

/// A settled invoice is recorded under the hexadecimal of its whole payment hash, with the
/// hexadecimal of its whole preimage as the ticket secret (whatever their lengths); any other
/// state records nothing.
pub proof fn settlement_records_whole_hash_and_preimage(
    state: i32,
    r_hash: Seq<u8>,
    r_preimage: Seq<u8>,
    r: Option<Settlement>,
)
    requires
        lightning::settlement_outcome(state, r_hash, r_preimage, r),
    ensures
        r is Some <==> state == 1,
        r matches Some(s) ==> spells_lower_hex(s.hash@, r_hash) && spells_lower_hex(s.preimage@, r_preimage),
{
    encoded_hex_spells_bytes(r_hash);
    encoded_hex_spells_bytes(r_preimage);
}

/// The invoice lookup reports the invoice as paid exactly when it has a settle date, shows
/// the hexadecimal of its whole preimage once it is settled and nothing before, and passes
/// its description through.
pub proof fn lookup_reports_payment(
    state: i32,
    settle_date: i64,
    r_preimage: Seq<u8>,
    memo: String,
    r: InvoiceResponse,
)
    requires
        lightning::lookup_outcome(state, settle_date, r_preimage, memo, r),
    ensures
        r.paid <==> settle_date > 0,
        state == 1 ==> spells_lower_hex(r.preimage@, r_preimage),
        state != 1 ==> r.preimage@.len() == 0,
        r.description@ == memo@,
{
    encoded_hex_spells_bytes(r_preimage);
}

/// For one settled invoice, the secret that the settlement records and the preimage that the
/// lookup shows are the same text, and it names every byte of the preimage.
pub proof fn settlement_and_lookup_agree(
    state: i32,
    r_hash: Seq<u8>,
    r_preimage: Seq<u8>,
    s: Settlement,
    settle_date: i64,
    memo: String,
    l: InvoiceResponse,
)
    requires
        lightning::settlement_outcome(state, r_hash, r_preimage, Some(s)),
        lightning::lookup_outcome(state, settle_date, r_preimage, memo, l),
    ensures
        l.preimage@ == s.preimage@,
        s.preimage@.len() == 2 * r_preimage.len(),
{
}


/// Every registration answers with success and echoes the ticket price.  A user is stored as
/// new exactly when no stored row has their e-mail address in lower case; a new attendee is
/// unpaid, has no preimage and no last name, carries the user's first name, free-form field
/// and lower-cased address and the registration time, and is stored under the hexadecimal of
/// the whole payment hash.  Whenever the invoice is offered (new or unpaid user) the answer
/// carries that hash, the payment request and the description; a paid user gets their
/// stored hash back and no payment request.
pub proof fn registration_answers(
    user: User,
    memo: Seq<char>,
    amount: u32,
    payment_hash: Seq<u8>,
    payment_request: Seq<char>,
    rows: Seq<Attendee>,
    now: i64,
    r: (RegistrationAction, AddInvoiceResponse),
)
    requires
        routes::registration_outcome(user, memo, amount, payment_hash, payment_request, rows, now, r),
    ensures
        r.1.success,
        r.1.amount == amount,
        r.0 is Insert <==> forall|j: int| 0 <= j < rows.len() ==> (#[trigger] rows[j]).email@
            != registry::lowercase(user.email@),
        r.0 matches RegistrationAction::Insert(n) ==> {
            &&& n.email@ == registry::lowercase(user.email@)
            &&& n.firstname@ == user.firstname@
            &&& n.data1@ == user.data1@
            &&& !n.paid
            &&& n.preimage@.len() == 0
            &&& n.lastname@.len() == 0
            &&& n.created_at == now
            &&& spells_lower_hex(n.hash@, payment_hash)
        },
        r.0 matches RegistrationAction::UpdateHash { email: e, hash: h } ==> {
            &&& spells_lower_hex(h@, payment_hash)
            &&& exists|j: int|
                0 <= j < rows.len() && (#[trigger] rows[j]).email@ == registry::lowercase(user.email@)
                    && (forall|k: int| 0 <= k < j ==> (#[trigger] rows[k]).email@ != registry::lowercase(user.email@))
                    && !rows[j].paid && e@ == registry::lowercase(rows[j].email@)
        },
        r.0 is Unchanged ==> {
            &&& exists|j: int|
                0 <= j < rows.len() && (#[trigger] rows[j]).email@ == registry::lowercase(user.email@)
                    && (forall|k: int| 0 <= k < j ==> (#[trigger] rows[k]).email@ != registry::lowercase(user.email@))
                    && rows[j].paid && r.1.hash@ == rows[j].hash@
            &&& r.1.request@.len() == 0
            &&& r.1.description@.len() == 0
        },
        !(r.0 is Unchanged) ==> {
            &&& spells_lower_hex(r.1.hash@, payment_hash)
            &&& r.1.request@ == payment_request
            &&& r.1.description@ == memo
        },
{
    let email = registry::lowercase(user.email@);
    registry::first_match_facts(rows, Key::Email, email, false);
    encoded_hex_spells_bytes(payment_hash);
    match registry::first_match(rows, Key::Email, email, false) {
        Some(i) => {
            assert(rows[i].email@ == email);
            assert forall|k: int| 0 <= k < i implies (#[trigger] rows[k]).email@ != email by {
                assert(!registry::row_matches(rows[k], Key::Email, email, false));
            }
        },
        None => {},
    }
}

/// The row answers the verification request: its preimage is the secret when one is given,
/// else its e-mail address is the given one in lower case; with neither, no row answers.
pub open spec fn answers_request(secret: Option<String>, email: Option<String>, a: Attendee) -> bool {
    match secret {
        Some(s) => a.preimage@ == s@,
        None => match email {
            Some(e) => a.email@ == registry::lowercase(e@),
            None => false,
        },
    }
}

/// The verification API shows, field for field, a paid row that answers the request, and
/// names that row's ticket; it finds one whenever a paid row answers the request, and
/// otherwise answers blank.
pub proof fn verification_shows_matching_paid_row(
    secret: Option<String>,
    email: Option<String>,
    rows: Seq<Attendee>,
    r: VerifyAnswer,
)
    requires
        routes::verify_outcome(secret, email, rows, r),
    ensures
        r.ticket matches Some(t) ==> exists|i: int|
            0 <= i < rows.len() && (#[trigger] rows[i]).paid && answers_request(secret, email, rows[i])
                && (forall|k: int| 0 <= k < i ==> !((#[trigger] rows[k]).paid && answers_request(secret, email, rows[k])))
                && t@ == rows[i].preimage@ && r.response.firstname@ == rows[i].firstname@
                && r.response.data1@ == rows[i].data1@ && r.response.email@ == rows[i].email@
                && r.response.preimage@ == rows[i].preimage@ && r.response.paid,
        (exists|i: int| 0 <= i < rows.len() && (#[trigger] rows[i]).paid && answers_request(secret, email, rows[i]))
            ==> r.ticket is Some,
        r.ticket is None ==> {
            &&& r.response.firstname@.len() == 0
            &&& r.response.data1@.len() == 0
            &&& r.response.email@.len() == 0
            &&& r.response.preimage@.len() == 0
            &&& !r.response.paid
        },
{
    match secret {
        Some(s) => {
            registry::first_match_facts(rows, Key::Preimage, s@, true);
            if exists|i: int| 0 <= i < rows.len() && (#[trigger] rows[i]).paid && answers_request(secret, email, rows[i]) {
                let i = choose|i: int| 0 <= i < rows.len() && (#[trigger] rows[i]).paid && answers_request(secret, email, rows[i]);
                assert(registry::row_matches(rows[i], Key::Preimage, s@, true));
            }
            match registry::first_match(rows, Key::Preimage, s@, true) {
                Some(k) => {
                    assert(answers_request(secret, email, rows[k]));
                    assert forall|j: int| 0 <= j < k implies !((#[trigger] rows[j]).paid && answers_request(secret, email, rows[j])) by {
                        assert(!registry::row_matches(rows[j], Key::Preimage, s@, true));
                    }
                },
                None => {},
            }
        },
        None => match email {
            Some(e) => {
                let l = registry::lowercase(e@);
                registry::first_match_facts(rows, Key::Email, l, true);
                if exists|i: int| 0 <= i < rows.len() && (#[trigger] rows[i]).paid && answers_request(secret, email, rows[i]) {
                    let i = choose|i: int| 0 <= i < rows.len() && (#[trigger] rows[i]).paid && answers_request(secret, email, rows[i]);
                    assert(registry::row_matches(rows[i], Key::Email, l, true));
                }
                match registry::first_match(rows, Key::Email, l, true) {
                    Some(k) => {
                        assert(answers_request(secret, email, rows[k]));
                        assert forall|j: int| 0 <= j < k implies !((#[trigger] rows[j]).paid && answers_request(secret, email, rows[j])) by {
                            assert(!registry::row_matches(rows[j], Key::Email, l, true));
                        }
                    },
                    None => {},
                }
            },
            None => {},
        },
    }
}

/// The verification page shows, field for field, the first row (paid or not) whose preimage
/// is the secret; there is one whenever any row has that preimage, and otherwise the page is
/// blank.
pub proof fn verification_page_shows_first_row_with_secret(
    secret: Seq<char>,
    rows: Seq<Attendee>,
    r: AttendeeResponse,
)
    requires
        routes::verify_user_outcome(secret, rows, r),
    ensures
        (exists|i: int| 0 <= i < rows.len() && (#[trigger] rows[i]).preimage@ == secret) ==> exists|i: int|
            0 <= i < rows.len() && (#[trigger] rows[i]).preimage@ == secret
                && (forall|j: int| 0 <= j < i ==> (#[trigger] rows[j]).preimage@ != secret)
                && r.firstname@ == rows[i].firstname@ && r.data1@ == rows[i].data1@
                && r.email@ == rows[i].email@ && r.preimage@ == secret && r.paid == rows[i].paid,
        (forall|i: int| 0 <= i < rows.len() ==> (#[trigger] rows[i]).preimage@ != secret) ==> {
            &&& r.firstname@.len() == 0
            &&& r.data1@.len() == 0
            &&& r.email@.len() == 0
            &&& r.preimage@.len() == 0
            &&& !r.paid
        },
{
    registry::first_match_facts(rows, Key::Preimage, secret, false);
    if exists|i: int| 0 <= i < rows.len() && (#[trigger] rows[i]).preimage@ == secret {
        let i = choose|i: int| 0 <= i < rows.len() && (#[trigger] rows[i]).preimage@ == secret;
        assert(registry::row_matches(rows[i], Key::Preimage, secret, false));
        let k = registry::first_match(rows, Key::Preimage, secret, false)->0;
        assert forall|j: int| 0 <= j < k implies (#[trigger] rows[j]).preimage@ != secret by {
            assert(!registry::row_matches(rows[j], Key::Preimage, secret, false));
        }
    }
}

/// Whether registration is closed: reaching the capacity closes it at any time, passing the
/// closing date closes it, and before the closing date below the capacity it is open.
pub proof fn registration_closes_when_full_or_late(closing: i64, now: i64, paid: nat, max_capacity: i32)
    ensures
        (paid as i32) >= max_capacity ==> routes::registration_closed(closing, now, paid, max_capacity),
        now > closing ==> routes::registration_closed(closing, now, paid, max_capacity),
        (now <= closing && (paid as i32) < max_capacity) ==> !routes::registration_closed(
            closing,
            now,
            paid,
            max_capacity,
        ),
{
}

/// The attendee sheet: a title row, then one row per attendee in order whose cells are the
/// id (as decimal text that reads back as the id), first name, free-form field, e-mail and
/// `true`/`false` for paid (whatever the attendee's other fields), then a blank run four
/// cells wide.
pub proof fn sheet_lists_every_attendee(attendees: Seq<Attendee>, sheet: Seq<Vec<Cell>>)
    requires
        excel::is_attendee_sheet(attendees, sheet),
    ensures
        sheet[0]@.len() == 5,
        sheet[0]@[0] matches Cell::Text(t) && t@ == "Id"@,
        sheet[0]@[1] matches Cell::Text(t) && t@ == "Nombre"@,
        sheet[0]@[2] matches Cell::Text(t) && t@ == "github"@,
        sheet[0]@[3] matches Cell::Text(t) && t@ == "E-mail"@,
        sheet[0]@[4] matches Cell::Text(t) && t@ == "Pagó"@,
        forall|i: int|
            0 <= i < attendees.len() ==> {
                let row = #[trigger] sheet[i + 1]@;
                &&& row.len() == 5
                &&& row[0] matches Cell::Text(t) && decimal::parsed_integer(t@, true) == Some(
                    attendees[i].id as int,
                )
                &&& row[1] matches Cell::Text(t) && t@ == attendees[i].firstname@
                &&& row[2] matches Cell::Text(t) && t@ == attendees[i].data1@
                &&& row[3] matches Cell::Text(t) && t@ == attendees[i].email@
                &&& row[4] matches Cell::Text(t) && t@ == (if attendees[i].paid {
                    "true"@
                } else {
                    "false"@
                })
            },
        sheet[attendees.len() as int + 1]@.len() == 1,
        sheet[attendees.len() as int + 1]@[0] matches Cell::Blank(w) && w == 4,
{
    let h = sheet[0]@;
    assert(excel::row_view(h).len() == 5);
    assert(excel::row_view(h)[0] == excel::cell_view(h[0]));
    assert(excel::row_view(h)[1] == excel::cell_view(h[1]));
    assert(excel::row_view(h)[2] == excel::cell_view(h[2]));
    assert(excel::row_view(h)[3] == excel::cell_view(h[3]));
    assert(excel::row_view(h)[4] == excel::cell_view(h[4]));
    assert forall|i: int|
        0 <= i < attendees.len() implies {
            let row = #[trigger] sheet[i + 1]@;
            &&& row.len() == 5
            &&& row[0] matches Cell::Text(t) && decimal::parsed_integer(t@, true) == Some(
                attendees[i].id as int,
            )
            &&& row[1] matches Cell::Text(t) && t@ == attendees[i].firstname@
            &&& row[2] matches Cell::Text(t) && t@ == attendees[i].data1@
            &&& row[3] matches Cell::Text(t) && t@ == attendees[i].email@
            &&& row[4] matches Cell::Text(t) && t@ == (if attendees[i].paid {
                "true"@
            } else {
                "false"@
            })
        } by {
        let row = sheet[i + 1]@;
        assert(excel::row_view(row) == excel::attendee_row(attendees[i]));
        assert(excel::row_view(row).len() == 5);
        assert(excel::row_view(row)[0] == excel::cell_view(row[0]));
        assert(excel::row_view(row)[1] == excel::cell_view(row[1]));
        assert(excel::row_view(row)[2] == excel::cell_view(row[2]));
        assert(excel::row_view(row)[3] == excel::cell_view(row[3]));
        assert(excel::row_view(row)[4] == excel::cell_view(row[4]));
        crate::laws::decimal_roundtrip(attendees[i].id);
    }
    let c = sheet[attendees.len() as int + 1]@;
    assert(excel::row_view(c).len() == 1);
    assert(excel::row_view(c)[0] == excel::cell_view(c[0]));
}


/// The landing page, once the closing date reads as an instant: registration is closed when
/// the paid attendees (counted as an `i32`) reach the capacity, whatever the time; closed after
/// the closing instant; and open before it while below capacity.  An unreadable closing date
/// gives no decision.
pub proof fn landing_page_closes_when_full_or_late(
    closing_date: Seq<char>,
    now: i64,
    rows: Seq<Attendee>,
    max_capacity: i32,
    r: Option<bool>,
)
    requires
        routes::index_outcome(closing_date, now, rows, max_capacity, r),
    ensures
        routes::rfc3339_timestamp(closing_date) is None <==> r is None,
        routes::rfc3339_timestamp(closing_date) matches Some(closing) ==> {
            &&& (registry::paid_count(rows) as i32) >= max_capacity ==> r == Some(true)
            &&& now > closing ==> r == Some(true)
            &&& (now <= closing && (registry::paid_count(rows) as i32) < max_capacity) ==> r == Some(false)
        },
{
    match routes::rfc3339_timestamp(closing_date) {
        Some(closing) => registration_closes_when_full_or_late(closing, now, registry::paid_count(rows), max_capacity),
        None => {},
    }
}

/// The ticket's QR link is the server's address, then `/verify/`, then the ticket secret,
/// with nothing added or left out.
pub proof fn ticket_link_leads_to_verification(server_url: Seq<char>, preimage: Seq<char>)
    ensures
        ({
            let url = crate::pdf::ticket_url(server_url, preimage);
            &&& url.len() == server_url.len() + 8 + preimage.len()
            &&& url.take(server_url.len() as int) == server_url
            &&& url.subrange(server_url.len() as int, server_url.len() as int + 8) == "/verify/"@
            &&& url.skip(server_url.len() as int + 8) == preimage
        }),
{
    reveal_strlit("/verify/");
    let url = crate::pdf::ticket_url(server_url, preimage);
    assert(url.take(server_url.len() as int) =~= server_url);
    assert(url.subrange(server_url.len() as int, server_url.len() as int + 8) =~= "/verify/"@);
    assert(url.skip(server_url.len() as int + 8) =~= preimage);
}


/// Counting paid attendees: no rows count nothing, and each further row counts one exactly
/// when it is paid.
pub proof fn paid_count_counts_paid_rows(rows: Seq<Attendee>, a: Attendee)
    ensures
        registry::paid_count(Seq::<Attendee>::empty()) == 0,
        registry::paid_count(rows.push(a)) == registry::paid_count(rows) + (if a.paid { 1int } else { 0int }),
        registry::paid_count(rows) <= rows.len(),
    decreases rows.len(),
{
    assert(rows.push(a).drop_last() =~= rows);
    if rows.len() > 0 {
        paid_count_counts_paid_rows(rows.drop_last(), rows.last());
        assert(rows.drop_last().push(rows.last()) =~= rows);
    }
}

} // verus!
