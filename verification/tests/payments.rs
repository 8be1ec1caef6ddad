use danta::excel::{generate_file, Cell};
use danta::hexcode::{decode_payment_hash, encode_hex};
use danta::lightning::{add_invoice, invoice, lnd_address, lookup_invoice, InvoiceState};
use danta::model::{Attendee, User};
use danta::pdf::{generate_pdf, ticket_files, TicketError};
use danta::routes::{create_invoice, verify, RegistrationAction};

#[test]
fn invoice_states_by_number() {
    assert_eq!(InvoiceState::from_i32(0), Some(InvoiceState::Open));
    assert_eq!(InvoiceState::from_i32(1), Some(InvoiceState::Settled));
    assert_eq!(InvoiceState::from_i32(2), Some(InvoiceState::Canceled));
    assert_eq!(InvoiceState::from_i32(3), Some(InvoiceState::Accepted));
    assert_eq!(InvoiceState::from_i32(4), None);
    assert_eq!(InvoiceState::from_i32(-1), None);
}

#[test]
fn add_invoice_prices_ticket_for_an_hour() {
    let r = add_invoice("Lightning Hackday", 21000);
    assert_eq!(r.memo, "Lightning Hackday");
    assert_eq!(r.value, 21000);
    assert_eq!(r.expiry, 3600);
    assert_eq!(add_invoice("", u32::MAX).value, 4294967295);
}

#[test]
fn lnd_address_uses_https() {
    assert_eq!(lnd_address("192.168.0.2:10009"), "https://192.168.0.2:10009");
}

#[test]
fn settled_invoice_is_recorded() {
    let s = invoice(1, &[0xca, 0xfe], &[0x01, 0x02]).unwrap();
    assert_eq!(s.hash, "cafe");
    assert_eq!(s.preimage, "0102");
}

#[test]
fn other_invoice_states_record_nothing() {
    for state in [0, 2, 3, 7, -1] {
        assert!(invoice(state, &[0xca, 0xfe], &[0x01]).is_none());
    }
}

#[test]
fn lookup_invoice_reports_payment() {
    let r = lookup_invoice(1, 1_700_000_000, &[0xab, 0xcd], "Ticket".to_string());
    assert!(r.paid);
    assert_eq!(r.preimage, "abcd");
    assert_eq!(r.description, "Ticket");
    let r = lookup_invoice(0, 0, &[0xab, 0xcd], "Ticket".to_string());
    assert!(!r.paid);
    assert_eq!(r.preimage, "");
    // Accepted (held) invoices show no preimage even with a settle date.
    let r = lookup_invoice(3, 5, &[0xab], "x".to_string());
    assert!(r.paid);
    assert_eq!(r.preimage, "");
}

#[test]
fn registration_and_settlement_use_same_hash() {
    let payment_hash: Vec<u8> = (0u8..32).collect();
    let user = User { firstname: "Eve".to_string(), data1: "eve".to_string(), email: "eve@x.org".to_string() };
    let (action, resp) = create_invoice(&user, "Ticket", 1, &payment_hash, "lnbc", &Vec::new(), 0);
    let settlement = invoice(1, &payment_hash, &[9; 32]).unwrap();
    match action {
        RegistrationAction::Insert(n) => assert_eq!(n.hash, settlement.hash),
        _ => panic!("expected an insert"),
    }
    assert_eq!(resp.hash, settlement.hash);
    // The hash handed to the client decodes back to the invoice's payment hash.
    assert_eq!(decode_payment_hash(&resp.hash), Ok(payment_hash));
}

#[test]
fn settled_ticket_verifies_by_its_secret() {
    let mut rows = vec![Attendee {
        id: 1,
        hash: encode_hex(&[7; 32]),
        preimage: String::new(),
        firstname: "Eve".to_string(),
        lastname: String::new(),
        email: "eve@x.org".to_string(),
        data1: "eve".to_string(),
        paid: false,
        created_at: 0,
    }];
    let settlement = invoice(1, &[7; 32], &[3; 32]).unwrap();
    assert!(verify(Some(settlement.preimage.clone()), None, &rows).ticket.is_none());
    for a in rows.iter_mut() {
        if a.hash == settlement.hash {
            a.preimage = settlement.preimage.clone();
            a.paid = true;
        }
    }
    let r = verify(Some(settlement.preimage.clone()), None, &rows);
    assert!(r.response.paid);
    assert_eq!(r.ticket, Some(settlement.preimage.clone()));
    assert_eq!(r.response.preimage, settlement.preimage);
}

fn texts(row: &[Cell]) -> Vec<Option<String>> {
    row.iter()
        .map(|c| match c {
            Cell::Text(s) => Some(s.clone()),
            Cell::Blank(n) => Some(format!("<blank {n}>")),
        })
        .collect()
}

#[test]
fn attendee_sheet_rows() {
    let rows = vec![
        Attendee {
            id: 12,
            hash: "h".to_string(),
            preimage: "p".to_string(),
            firstname: "Ana".to_string(),
            lastname: String::new(),
            email: "ana@x.org".to_string(),
            data1: "ana-gh".to_string(),
            paid: true,
            created_at: 0,
        },
        Attendee {
            id: -3,
            hash: "h2".to_string(),
            preimage: String::new(),
            firstname: "Bo".to_string(),
            lastname: String::new(),
            email: "bo@x.org".to_string(),
            data1: String::new(),
            paid: false,
            created_at: 0,
        },
    ];
    let sheet = generate_file(&rows);
    assert_eq!(sheet.len(), 4);
    let s = |x: &str| Some(x.to_string());
    assert_eq!(texts(&sheet[0]), vec![s("Id"), s("Nombre"), s("github"), s("E-mail"), s("Pagó")]);
    assert_eq!(texts(&sheet[1]), vec![s("12"), s("Ana"), s("ana-gh"), s("ana@x.org"), s("true")]);
    assert_eq!(texts(&sheet[2]), vec![s("-3"), s("Bo"), s(""), s("bo@x.org"), s("false")]);
    assert_eq!(texts(&sheet[3]), vec![s("<blank 4>")]);
    assert_eq!(generate_file(&Vec::new()).len(), 2);
}

#[test]
fn ticket_paths_and_link() {
    let f = ticket_files("abcd");
    assert_eq!(f.pdf_path, "./files/abcd.pdf");
    assert_eq!(f.image_path, "/tmp/abcd.png");
    let t = generate_pdf("abcd", "https://event.example").unwrap();
    assert_eq!(t.url, "https://event.example/verify/abcd");
    assert!(t.width > 0);
    assert_eq!(t.dark.len(), t.width * t.width);
    let code = qrcode::QrCode::new(b"https://event.example/verify/abcd").unwrap();
    assert_eq!(t.width, code.width());
    let dark: Vec<bool> = code.to_colors().iter().map(|c| *c == qrcode::Color::Dark).collect();
    assert_eq!(t.dark, dark);
}

#[test]
fn ticket_link_too_long_for_qr() {
    let long = "x".repeat(5000);
    assert!(matches!(generate_pdf(&long, "https://event.example"), Err(TicketError::UrlTooLong)));
}

#[test]
fn settlement_marks_only_its_rows() {
    let mut rows: Vec<Attendee> = (0u8..3)
        .map(|k| Attendee {
            id: k as i32,
            hash: encode_hex(&[k; 32]),
            preimage: String::new(),
            firstname: format!("n{k}"),
            lastname: String::new(),
            email: format!("{k}@x.org"),
            data1: String::new(),
            paid: k == 2,
            created_at: 0,
        })
        .collect();
    let settlement = invoice(1, &[1; 32], &[8; 32]).unwrap();
    for a in rows.iter_mut() {
        if a.hash == settlement.hash {
            a.preimage = settlement.preimage.clone();
            a.paid = true;
        }
    }
    assert!(!rows[0].paid && rows[0].preimage.is_empty());
    assert!(rows[1].paid && rows[1].preimage == settlement.preimage);
    assert!(rows[2].paid && rows[2].preimage.is_empty());
}
