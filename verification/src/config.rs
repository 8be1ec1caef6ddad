//! Numbers read from the service's configuration.

use vstd::prelude::*;
use crate::decimal::{parse_i32, parse_u32};

verus! {

/// A configured value that is not a number of the expected kind.
#[derive(Debug, Clone, Copy, PartialEq, Eq, Structural)]
pub enum ConfigError {
    NotANumber,
}

/// The capacity of the event (`MAX_CAPACITY`): a decimal `i32`.
pub fn max_capacity(raw: &str) -> (r: Result<i32, ConfigError>)
    ensures
        match r {
            Ok(v) => crate::decimal::parsed_integer(raw@, true) == Some(v as int),
            Err(_) => !(crate::decimal::parsed_integer(raw@, true) matches Some(v) && i32::MIN <= v
                <= i32::MAX),
        },
{
    match parse_i32(raw) {
        Some(v) => Ok(v),
        None => Err(ConfigError::NotANumber),
    }
}

/// The price of a ticket in satoshis (`EVENT_TICKET_AMOUNT`): a decimal `u32`.
pub fn ticket_amount(raw: &str) -> (r: Result<u32, ConfigError>)
    ensures
        match r {
            Ok(v) => crate::decimal::parsed_integer(raw@, false) == Some(v as int),
            Err(_) => !(crate::decimal::parsed_integer(raw@, false) matches Some(v) && 0 <= v
                <= u32::MAX),
        },
{
    match parse_u32(raw) {
        Some(v) => Ok(v),
        None => Err(ConfigError::NotANumber),
    }
}

} // verus!
