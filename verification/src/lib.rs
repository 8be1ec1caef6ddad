//! Event registration with Lightning Network payments: the verified core.
//!
//! An attendee registers with a name, a free-form field and an e-mail address;
//! the service asks a Lightning node for an invoice and records the attendee
//! under the invoice's payment hash.  When the node reports the invoice as
//! settled, the attendee is marked as paid and receives a ticket whose QR code
//! points back to a verification page keyed by the payment preimage.

pub mod text;
pub mod hexcode;
pub mod decimal;
pub mod model;
pub mod registry;
pub mod routes;
pub mod lightning;
pub mod config;
pub mod excel;
pub mod pdf;
pub mod laws;
pub mod behaviour;
