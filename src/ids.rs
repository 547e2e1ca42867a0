//! Run identifiers: 128-bit values written in the hyphenated text form.
use vstd::prelude::*;

use crate::error::DomainError;

verus! {

/// The lower-case hexadecimal digit of `d`, for `d < 16`.
pub open spec fn hex_char(d: nat) -> char {
    seq!['0', '1', '2', '3', '4', '5', '6', '7', '8', '9', 'a', 'b', 'c', 'd', 'e', 'f'][d as int]
}

/// The last `n` hexadecimal digits of `v`, most significant first.
pub open spec fn hex_digits(v: nat, n: nat) -> Seq<char>
    decreases n,
{
    if n == 0 {
        Seq::empty()
    } else {
        hex_digits(v / 16, (n - 1) as nat).push(hex_char(v % 16))
    }
}

/// The hyphenated form of an identifier: its 32 hexadecimal digits, most
/// significant first, grouped 8-4-4-4-12.
pub open spec fn uuid_text(id: u128) -> Seq<char> {
    let h = hex_digits(id as nat, 32);
    h.subrange(0, 8) + seq!['-'] + h.subrange(8, 12) + seq!['-'] + h.subrange(12, 16) + seq!['-']
        + h.subrange(16, 20) + seq!['-'] + h.subrange(20, 32)
}

/// What `uuid::Uuid::parse_str` accepts, and the identifier it reads.
pub uninterp spec fn uuid_parse_of(s: Seq<char>) -> Option<u128>;

/// Relies on `uuid::Uuid::from_u128` (the value's bytes in big-endian order)
/// and `Display for uuid::Uuid` (the hyphenated lower-case form).
#[verifier::external_body]
pub(crate) fn uuid_string(id: u128) -> (r: String)
    ensures
        r@ == uuid_text(id),
{
    uuid::Uuid::from_u128(id).to_string()
}

/// Relies on `uuid::Uuid::parse_str`, which reads the identifier or fails,
/// and `uuid::Uuid::as_u128`; the error is the parser's message.
#[verifier::external_body]
fn uuid_parse(s: &str) -> (r: Result<u128, String>)
    ensures
        match r {
            Ok(v) => uuid_parse_of(s@) == Some(v),
            Err(_) => uuid_parse_of(s@) is None,
        },
{
    match uuid::Uuid::parse_str(s) {
        Ok(u) => Ok(u.as_u128()),
        Err(e) => Err(e.to_string()),
    }
}

/// The hyphenated text of a run identifier.
pub fn id_text(id: u128) -> (r: String)
    ensures
        r@ == uuid_text(id),
{
    uuid_string(id)
}

/// Reads an identifier; text that is not one is an internal error.
pub fn parse_uuid(value: &str) -> (r: Result<u128, DomainError>)
    ensures
        match r {
            Ok(v) => uuid_parse_of(value@) == Some(v),
            Err(e) => uuid_parse_of(value@) is None && e is Internal,
        },
{
    match uuid_parse(value) {
        Ok(v) => Ok(v),
        Err(message) => Err(DomainError::Internal(message)),
    }
}

} // verus!
