use danta::model::{Attendee, AttendeeResponse, User};
use danta::registry::{count_paid, find_first, Key};
use danta::routes::{authorize, create_invoice, index, not_found, verify, verify_user, RegistrationAction};

fn row(id: i32, email: &str, hash: &str, preimage: &str, paid: bool) -> Attendee {
    Attendee {
        id,
        hash: hash.to_string(),
        preimage: preimage.to_string(),
        firstname: format!("name{id}"),
        lastname: String::new(),
        email: email.to_string(),
        data1: format!("gh{id}"),
        paid,
        created_at: 1_000_000 * id as i64,
    }
}

fn sample_rows() -> Vec<Attendee> {
    vec![
        row(1, "ana@example.com", "aa", "p1", true),
        row(2, "bob@example.com", "bb", "", false),
        row(3, "bob@example.com", "b2", "p3", true),
        row(4, "cid@example.com", "cc", "p4", false),
    ]
}

// 2022-10-01T00:00:00Z
const CLOSING: i64 = 1_664_582_400;

#[test]
fn count_and_find() {
    let rows = sample_rows();
    assert_eq!(count_paid(&rows), 2);
    assert_eq!(find_first(&rows, Key::Email, &"bob@example.com".to_string(), false), Some(1));
    assert_eq!(find_first(&rows, Key::Email, &"bob@example.com".to_string(), true), Some(2));
    assert_eq!(find_first(&rows, Key::Preimage, &"p4".to_string(), true), None);
    assert_eq!(find_first(&rows, Key::Preimage, &"p4".to_string(), false), Some(3));
}

#[test]
fn index_open_before_closing_and_below_capacity() {
    let rows = sample_rows();
    assert_eq!(index("2022-10-01T00:00:00Z", CLOSING - 1, &rows, 3), Some(false));
}

#[test]
fn index_closed_after_closing_date() {
    let rows = sample_rows();
    assert_eq!(index("2022-10-01T00:00:00Z", CLOSING + 1, &rows, 100), Some(true));
    assert_eq!(index("2022-10-01T02:00:00+02:00", CLOSING + 1, &rows, 100), Some(true));
    assert_eq!(index("2022-10-01T00:00:00Z", CLOSING, &rows, 100), Some(false));
}

#[test]
fn index_closed_at_capacity() {
    let rows = sample_rows();
    assert_eq!(index("2022-10-01T00:00:00Z", CLOSING - 10, &rows, 2), Some(true));
    assert_eq!(index("2022-10-01T00:00:00Z", CLOSING - 10, &rows, 0), Some(true));
}

#[test]
fn index_rejects_bad_closing_date() {
    let rows = sample_rows();
    assert_eq!(index("next friday", CLOSING, &rows, 2), None);
}

#[test]
fn closing_stays_closed_later() {
    let rows = sample_rows();
    let mut now = CLOSING - 5;
    let mut seen_closed = false;
    while now < CLOSING + 5 {
        let closed = index("2022-10-01T00:00:00Z", now, &rows, 3).unwrap();
        assert!(!seen_closed || closed);
        seen_closed |= closed;
        now += 1;
    }
    assert!(seen_closed);
}

#[test]
fn verify_user_finds_any_attendee_by_secret() {
    let rows = sample_rows();
    let r = verify_user("p4", &rows);
    assert_eq!(r.firstname, "name4");
    assert_eq!(r.data1, "gh4");
    assert_eq!(r.email, "cid@example.com");
    assert_eq!(r.preimage, "p4");
    assert!(!r.paid);
}

#[test]
fn verify_user_blank_for_unknown_secret() {
    let rows = sample_rows();
    let r = verify_user("nope", &rows);
    let blank = AttendeeResponse::default();
    assert_eq!((r.firstname, r.data1, r.email, r.preimage, r.paid), (blank.firstname, blank.data1, blank.email, blank.preimage, blank.paid));
}

#[test]
fn verify_by_secret_only_paid() {
    let rows = sample_rows();
    let r = verify(Some("p1".to_string()), None, &rows);
    assert_eq!(r.response.firstname, "name1");
    assert!(r.response.paid);
    assert_eq!(r.ticket, Some("p1".to_string()));
    let r = verify(Some("p4".to_string()), None, &rows);
    assert!(!r.response.paid);
    assert_eq!(r.response.email, "");
    assert_eq!(r.ticket, None);
}

#[test]
fn verify_by_email_is_case_insensitive_and_paid_only() {
    let rows = sample_rows();
    let r = verify(None, Some("BOB@Example.COM".to_string()), &rows);
    assert_eq!(r.response.firstname, "name3");
    assert_eq!(r.response.preimage, "p3");
    assert!(r.response.paid);
    assert_eq!(r.ticket, Some("p3".to_string()));
}

#[test]
fn verify_secret_takes_precedence_over_email() {
    let rows = sample_rows();
    let r = verify(Some("missing".to_string()), Some("ana@example.com".to_string()), &rows);
    assert_eq!(r.ticket, None);
    assert_eq!(r.response.firstname, "");
}

#[test]
fn verify_without_parameters_is_blank() {
    let rows = sample_rows();
    let r = verify(None, None, &rows);
    assert_eq!(r.ticket, None);
    assert!(!r.response.paid);
    assert_eq!(r.response.preimage, "");
}

fn user(email: &str) -> User {
    User { firstname: "Dana".to_string(), data1: "dana-gh".to_string(), email: email.to_string() }
}

#[test]
fn create_invoice_registers_new_user() {
    let rows = sample_rows();
    let (action, resp) = create_invoice(&user("Dana@Example.com"), "Ticket", 5000, &[0xde, 0xad], "lnbc1", &rows, 77);
    match action {
        RegistrationAction::Insert(n) => {
            assert_eq!(n.hash, "dead");
            assert_eq!(n.preimage, "");
            assert_eq!(n.firstname, "Dana");
            assert_eq!(n.lastname, "");
            assert_eq!(n.email, "dana@example.com");
            assert_eq!(n.data1, "dana-gh");
            assert!(!n.paid);
            assert_eq!(n.created_at, 77);
        }
        _ => panic!("expected an insert"),
    }
    assert_eq!(resp.hash, "dead");
    assert_eq!(resp.request, "lnbc1");
    assert_eq!(resp.description, "Ticket");
    assert_eq!(resp.amount, 5000);
    assert!(resp.success);
}

#[test]
fn create_invoice_keeps_paid_user() {
    let rows = sample_rows();
    let (action, resp) = create_invoice(&user("ANA@example.com"), "Ticket", 5000, &[0x01], "lnbc1", &rows, 77);
    assert!(matches!(action, RegistrationAction::Unchanged));
    assert_eq!(resp.hash, "aa");
    assert_eq!(resp.request, "");
    assert_eq!(resp.description, "");
    assert_eq!(resp.amount, 5000);
    assert!(resp.success);
}

#[test]
fn create_invoice_rehashes_unpaid_user() {
    let rows = sample_rows();
    // The first row with this address is the unpaid one.
    let (action, resp) = create_invoice(&user("bob@example.com"), "Ticket", 10, &[0x0a, 0xb0], "lnbc2", &rows, 1);
    match action {
        RegistrationAction::UpdateHash { email, hash } => {
            assert_eq!(email, "bob@example.com");
            assert_eq!(hash, "0ab0");
        }
        _ => panic!("expected a hash update"),
    }
    assert_eq!(resp.hash, "0ab0");
    assert_eq!(resp.request, "lnbc2");
    assert_eq!(resp.description, "Ticket");
}

#[test]
fn authorize_compares_tokens() {
    assert!(authorize("SECRET-REDACTED", "SECRET-REDACTED"));
    assert!(!authorize("abc", "abd"));
    assert!(!authorize("abc", ""));
}

#[test]
fn not_found_message() {
    assert_eq!(not_found("/nowhere?x=1"), "Oh no! We couldn't find the requested path '/nowhere?x=1'");
}

#[test]
fn unpaid_rows_do_not_change_closing() {
    let rows = sample_rows();
    for max in [1, 2, 3] {
        let before = index("2022-10-01T00:00:00Z", CLOSING - 1, &rows, max);
        for pos in 0..=rows.len() {
            let mut more = sample_rows();
            more.insert(pos, row(9, "zed@example.com", "zz", "", false));
            assert_eq!(count_paid(&more), count_paid(&rows));
            assert_eq!(index("2022-10-01T00:00:00Z", CLOSING - 1, &more, max), before);
        }
    }
}

#[test]
fn registration_keeps_emails_unique() {
    let mut rows = vec![row(1, "ana@example.com", "aa", "p1", true), row(2, "bob@example.com", "bb", "", false)];
    for email in ["Cid@Example.com", "ANA@example.com", "bob@EXAMPLE.com", "cid@example.com"] {
        let (action, _) = create_invoice(&user(email), "Ticket", 1, &[1, 2, 3], "lnbc", &rows, 5);
        match action {
            RegistrationAction::Insert(n) => {
                let id = rows.len() as i32 + 1;
                rows.push(Attendee {
                    id,
                    hash: n.hash,
                    preimage: n.preimage,
                    firstname: n.firstname,
                    lastname: n.lastname,
                    email: n.email,
                    data1: n.data1,
                    paid: n.paid,
                    created_at: n.created_at,
                });
            }
            RegistrationAction::UpdateHash { email, hash } => {
                for a in rows.iter_mut() {
                    if a.email == email {
                        a.hash = hash.clone();
                    }
                }
            }
            RegistrationAction::Unchanged => {}
        }
    }
    assert_eq!(rows.len(), 3);
    let mut emails: Vec<&str> = rows.iter().map(|a| a.email.as_str()).collect();
    emails.sort();
    emails.dedup();
    assert_eq!(emails.len(), 3);
    assert_eq!(rows[1].hash, "010203");
}
