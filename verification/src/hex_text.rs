//! Programs written out as hexadecimal text, two digits to the byte.

use vstd::prelude::*;

verus! {

/// The value of one hexadecimal digit, given as its ASCII code; upper and
/// lower case letters both count.
pub open spec fn hex_digit(c: u8) -> Option<u8> {
    if 0x30 <= c <= 0x39 {
        Some((c - 0x30) as u8)
    } else if 0x41 <= c <= 0x46 {
        Some((c - 0x41 + 10) as u8)
    } else if 0x61 <= c <= 0x66 {
        Some((c - 0x61 + 10) as u8)
    } else {
        None
    }
}

/// The text is an even number of hexadecimal digits and nothing else.
pub open spec fn is_hex_text(text: Seq<u8>) -> bool {
    &&& text.len() % 2 == 0
    &&& forall|k: int| 0 <= k < text.len() ==> hex_digit(#[trigger] text[k]) is Some
}

/// The bytes that a hexadecimal text spells: each pair of digits is one byte,
/// the first digit its high half.
pub open spec fn hex_bytes(text: Seq<u8>) -> Seq<u8> {
    Seq::new(
        text.len() / 2,
        |k: int| (16 * hex_digit(text[2 * k]).unwrap() + hex_digit(text[2 * k + 1]).unwrap()) as u8,
    )
}

#[verifier::external_type_specification]
#[verifier::external_body]
pub struct ExFromHexError(hex::FromHexError);

/// Calls `hex::decode`. Trusted: it succeeds exactly on an even number of
/// hexadecimal digits, and then returns the byte that each pair of digits
/// spells, in order.
#[verifier::external_body]
pub(crate) fn hex_decode(text: &[u8]) -> (r: Result<Vec<u8>, hex::FromHexError>)
    ensures
        r is Ok <==> is_hex_text(text@),
        r matches Ok(bytes) ==> bytes@ == hex_bytes(text@),
{
    hex::decode(text)
}

} // verus!
