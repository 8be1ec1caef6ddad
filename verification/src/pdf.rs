//! The ticket that a paid attendee receives: where it is written, and the QR code
//! that leads back to the verification page.

use vstd::prelude::*;
use vstd::string::StringExecFns;
use qrcode::{Color, QrCode};

verus! {

/// The modules of the QR code that `qrcode::QrCode::new` builds for these bytes (error
/// correction level M): its width in modules, and for each module, row by row from the
/// top left, whether it is dark; `None` where the bytes do not fit in a QR code.
pub uninterp spec fn qr_modules(data: Seq<u8>) -> Option<(usize, Seq<bool>)>;

/// `qrcode::QrCode::new` of the `qrcode` crate, with the code it builds read out through
/// `QrCode::width` and `QrCode::to_colors` (dark as `true`) and its error dropped.  The
/// modules are named, not restated (the encoding tables are not written out); the crate's
/// source shows that a code holds one color per module of its square.
#[verifier::external_body]
fn qr_code(data: &[u8]) -> (r: Option<(usize, Vec<bool>)>)
    ensures
        match r {
            Some((width, dark)) => {
                &&& qr_modules(data@) == Some((width, dark@))
                &&& dark.len() == width * width
            },
            None => qr_modules(data@) is None,
        },
{
    match QrCode::new(data) {
        Ok(code) => Some((code.width(), code.to_colors().iter().map(|c| match c {
            Color::Dark => true,
            Color::Light => false,
        }).collect())),
        Err(_) => None,
    }
}

/// Where a ticket's files go.
pub struct TicketFiles {
    /// The PDF file of the ticket.
    pub pdf_path: String,
    /// The scratch image of the QR code.
    pub image_path: String,
}

/// The files of the ticket whose secret is `preimage`, named after it.
pub fn ticket_files(preimage: &str) -> (r: TicketFiles)
    ensures
        r.pdf_path@ == "./files/"@ + preimage@ + ".pdf"@,
        r.image_path@ == "/tmp/"@ + preimage@ + ".png"@,
{
    let mut pdf_path = String::from_str("./files/");
    pdf_path.append(preimage);
    pdf_path.append(".pdf");
    let mut image_path = String::from_str("/tmp/");
    image_path.append(preimage);
    image_path.append(".png");
    TicketFiles { pdf_path, image_path }
}

/// What a ticket's QR code says, and its modules.
pub struct TicketCode {
    /// The verification page that the QR code encodes.
    pub url: String,
    /// The code's width in modules.
    pub width: usize,
    /// Whether each module is dark, row by row from the top left.
    pub dark: Vec<bool>,
}

/// The verification page of the ticket with secret `preimage`.
pub open spec fn ticket_url(server_url: Seq<char>, preimage: Seq<char>) -> Seq<char> {
    server_url + "/verify/"@ + preimage
}

/// Why no ticket could be made.
#[derive(Debug, Clone, Copy, PartialEq, Eq, Structural)]
pub enum TicketError {
    /// The verification page's address does not fit in a QR code.
    UrlTooLong,
}

/// The QR code printed on the ticket of the attendee whose payment secret is `preimage`:
/// it encodes (as UTF-8 bytes) the verification page on `server_url`.
pub fn generate_pdf(preimage: &str, server_url: &str) -> (r: Result<TicketCode, TicketError>)
    ensures
        match r {
            Ok(t) => {
                &&& t.url@ == ticket_url(server_url@, preimage@)
                &&& qr_modules(vstd::utf8::encode_utf8(t.url@)) == Some((t.width, t.dark@))
                &&& t.dark.len() == t.width * t.width
            },
            Err(TicketError::UrlTooLong) => qr_modules(
                vstd::utf8::encode_utf8(ticket_url(server_url@, preimage@)),
            ) is None,
        },
{
    let mut url = String::from_str(server_url);
    url.append("/verify/");
    url.append(preimage);
    match qr_code(url.as_str().as_bytes()) {
        Some((width, dark)) => Ok(TicketCode { url, width, dark }),
        None => Err(TicketError::UrlTooLong),
    }
}

} // verus!
