//! Identifiers of the controller's resources. The controller writes them
//! in the textual form of UUIDs; the client holds them as the 128-bit
//! numbers they stand for.

use vstd::prelude::*;
use crate::text::digit_char;

verus! {

/// The error of the `uuid` crate, `uuid::Error`. It is carried from the
/// call to the place where it is dropped, and never looked into.
#[verifier::external_type_specification]
#[verifier::external_body]
pub struct ExUuidError(uuid::Error);

/// The identifier that `uuid::Uuid::parse_str` reads from a text, as a
/// number with the first byte in the highest place; `None` where the text
/// is in none of the forms it accepts.
pub uninterp spec fn uuid_parsed(text: Seq<char>) -> Option<u128>;

/// The character that writes the hexadecimal digit `d`, in lower case.
pub open spec fn hex_char(d: int) -> char {
    if d < 10 {
        digit_char(d as nat)
    } else if d == 10 {
        'a'
    } else if d == 11 {
        'b'
    } else if d == 12 {
        'c'
    } else if d == 13 {
        'd'
    } else if d == 14 {
        'e'
    } else {
        'f'
    }
}

/// 16 to the power `n`.
pub open spec fn sixteen_to(n: nat) -> nat
    decreases n,
{
    if n == 0 {
        1
    } else {
        16 * sixteen_to((n - 1) as nat)
    }
}

/// The hexadecimal digit of `id` at place `k`, counted from the left
/// among its 32 digits.
pub open spec fn hex_digit(id: u128, k: int) -> int {
    (id as int / (sixteen_to((31 - k) as nat) as int)) % 16
}

/// The hyphenated form of an identifier: its 32 hexadecimal digits in
/// lower case, in groups of 8, 4, 4, 4 and 12 with a hyphen between them.
pub open spec fn hyphenated(id: u128) -> Seq<char> {
    Seq::new(
        36,
        |i: int|
            if i == 8 || i == 13 || i == 18 || i == 23 {
                '-'
            } else if i < 8 {
                hex_char(hex_digit(id, i))
            } else if i < 13 {
                hex_char(hex_digit(id, i - 1))
            } else if i < 18 {
                hex_char(hex_digit(id, i - 2))
            } else if i < 23 {
                hex_char(hex_digit(id, i - 3))
            } else {
                hex_char(hex_digit(id, i - 4))
            },
    )
}

/// Calls `uuid::Uuid::parse_str` and takes the result as a number, by
/// `as_u128`. The parser accepts the simple, hyphenated, URN and braced
/// forms; the contract only names its outcome, the same for the same text.
#[verifier::external_body]
pub(crate) fn parse_uuid(text: &str) -> (r: Result<u128, uuid::Error>)
    ensures
        match r {
            Ok(id) => uuid_parsed(text@) == Some(id),
            Err(_) => uuid_parsed(text@) is None,
        },
{
    Ok(uuid::Uuid::parse_str(text)?.as_u128())
}

/// Writes the identifier as `uuid::Uuid::from_u128(id)` displays it: the
/// crate's default form, hyphenated and in lower case, with the bytes in
/// the order of the number's places.
#[verifier::external_body]
pub(crate) fn format_uuid(id: u128) -> (s: String)
    ensures
        s@ == hyphenated(id),
{
    uuid::Uuid::from_u128(id).to_string()
}

/// Reads an identifier from its text.
pub(crate) fn identifier(text: &str) -> (r: Option<u128>)
    ensures
        r == uuid_parsed(text@),
{
    match parse_uuid(text) {
        Ok(id) => Some(id),
        Err(_) => None,
    }
}

} // verus!
