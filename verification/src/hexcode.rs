//! Lower-case hexadecimal text for payment hashes and preimages.

use vstd::prelude::*;
use crate::text::push_char;
use hex::FromHex;

verus! {

/// The character that stands for a nibble (`0..16`) in lower-case hexadecimal.
pub open spec fn nibble_char(n: int) -> char {
    if n < 10 {
        (n + 48) as char
    } else {
        (n + 87) as char
    }
}

/// Two lower-case hexadecimal digits per byte, high nibble first
/// (what `format!("{:02x}", b)` writes for each byte, joined without separator).
pub open spec fn hex_chars(bytes: Seq<u8>) -> Seq<char> {
    Seq::new(
        2 * bytes.len(),
        |i: int|
            if i % 2 == 0 {
                nibble_char((bytes[i / 2] / 16) as int)
            } else {
                nibble_char((bytes[i / 2] % 16) as int)
            },
    )
}

fn nibble_to_char(n: u8) -> (c: char)
    requires
        n < 16,
    ensures
        c == nibble_char(n as int),
{
    if n < 10 {
        (n + 48) as char
    } else {
        (n + 87) as char
    }
}

/// Renders bytes as lower-case hexadecimal, two digits per byte.
pub fn encode_hex(bytes: &[u8]) -> (r: String)
    ensures
        r@ == hex_chars(bytes@),
{
    let mut r = String::new();
    let n = bytes.len();
    for i in 0..n
        invariant
            n == bytes@.len(),
            r@ =~= hex_chars(bytes@.take(i as int)),
    {
        let b = bytes[i];
        push_char(&mut r, nibble_to_char(b / 16));
        push_char(&mut r, nibble_to_char(b % 16));
        assert(bytes@.take(i as int) =~= bytes@.take(i + 1).drop_last());
        assert(r@ =~= hex_chars(bytes@.take(i + 1)));
    }
    assert(bytes@.take(n as int) =~= bytes@);
    r
}


/// Why a text is not the hexadecimal form of a 32-byte payment hash.
#[derive(Debug, Clone, Copy, PartialEq, Eq)]
pub enum HexError {
    /// The byte at `index` is not a hexadecimal digit; `c` is that byte read as a character.
    InvalidHexCharacter { c: char, index: usize },
    /// The text has an odd number of bytes.
    OddLength,
    /// The text has an even number of bytes, but not two per byte of a 32-byte hash.
    InvalidStringLength,
}

/// Number of bytes in a payment hash.
pub const HASH_LEN: usize = 32;

/// `0-9`, `a-f` and `A-F`, as bytes.
pub open spec fn is_hex_byte(c: u8) -> bool {
    (48 <= c <= 57) || (97 <= c <= 102) || (65 <= c <= 70)
}

/// The value of a hexadecimal digit byte.
pub open spec fn hex_byte_value(c: u8) -> int {
    if 48 <= c <= 57 {
        c - 48
    } else if 97 <= c <= 102 {
        c - 87
    } else {
        c - 55
    }
}

/// The bytes that `data` spells, two hexadecimal digits per byte, high digit first.
pub open spec fn hex_decoded(data: Seq<u8>) -> Seq<u8> {
    Seq::new(
        data.len() / 2,
        |i: int| (hex_byte_value(data[2 * i]) * 16 + hex_byte_value(data[2 * i + 1])) as u8,
    )
}

/// What decoding `data` as a 32-byte payment hash gives: the first problem found,
/// checked in this order (odd length, wrong length, first non-digit byte), or the bytes.
pub open spec fn hash_decode_result(data: Seq<u8>, r: Result<Seq<u8>, HexError>) -> bool {
    match r {
        Ok(v) => {
            &&& data.len() == 2 * HASH_LEN
            &&& forall|j: int| 0 <= j < data.len() ==> is_hex_byte(#[trigger] data[j])
            &&& v == hex_decoded(data)
        },
        Err(HexError::OddLength) => data.len() % 2 == 1,
        Err(HexError::InvalidStringLength) => data.len() % 2 == 0 && data.len() != 2 * HASH_LEN,
        Err(HexError::InvalidHexCharacter { c, index }) => {
            &&& data.len() == 2 * HASH_LEN
            &&& index < data.len()
            &&& !is_hex_byte(data[index as int])
            &&& c == data[index as int] as char
            &&& forall|j: int| 0 <= j < index ==> is_hex_byte(#[trigger] data[j])
        },
    }
}

/// `<[u8; 32] as hex::FromHex>::from_hex` of the `hex` crate, with the array turned into a `Vec`
/// and the error into `HexError`, variant for variant.  The crate's `decode_to_slice` rejects an
/// odd length, then a length other than 64, then decodes pair by pair (high digit first,
/// `0-9`, `a-f`, `A-F`) and stops at the first byte that is not a digit, reporting that byte
/// (as `u8 as char`) and its position.
#[verifier::external_body]
fn hash_from_hex(data: &[u8]) -> (r: Result<Vec<u8>, HexError>)
    ensures
        hash_decode_result(
            data@,
            match r {
                Ok(v) => Ok(v@),
                Err(e) => Err(e),
            },
        ),
{
    match <[u8; 32]>::from_hex(data) {
        Ok(a) => Ok(a.to_vec()),
        Err(hex::FromHexError::InvalidHexCharacter { c, index }) => Err(HexError::InvalidHexCharacter { c, index }),
        Err(hex::FromHexError::OddLength) => Err(HexError::OddLength),
        Err(hex::FromHexError::InvalidStringLength) => Err(HexError::InvalidStringLength),
    }
}

/// Decodes the hexadecimal text of a payment hash (as a client sends it back in a lookup)
/// into its 32 bytes.
pub fn decode_payment_hash(hash: &str) -> (r: Result<Vec<u8>, HexError>)
    ensures
        hash_decode_result(
            vstd::utf8::encode_utf8(hash@),
            match r {
                Ok(v) => Ok(v@),
                Err(e) => Err(e),
            },
        ),
{
    hash_from_hex(hash.as_bytes())
}

} // verus!
