//! Hexadecimal text of byte strings, through the `hex` crate.
use vstd::prelude::*;
use crate::text::decimal;

verus! {

/// The lowercase hex digit for `d < 16`.
pub open spec fn hex_digit(d: nat) -> char {
    if d < 10 {
        (d + 48) as char
    } else {
        (d + 87) as char
    }
}

/// Lowercase hex text of `data`, two digits per byte, high nibble first.
pub open spec fn hex_encoding(data: Seq<u8>) -> Seq<char>
    decreases data.len(),
{
    if data.len() == 0 {
        Seq::empty()
    } else {
        hex_encoding(data.drop_last()) + seq![
            hex_digit((data.last() / 16) as nat),
            hex_digit((data.last() % 16) as nat),
        ]
    }
}

/// The value of one hex digit byte (`0-9`, `a-f`, `A-F`), if it is one.
pub open spec fn hex_value(b: u8) -> Option<u8> {
    if 48 <= b <= 57 {
        Some((b - 48) as u8)
    } else if 97 <= b <= 102 {
        Some((b - 87) as u8)
    } else if 65 <= b <= 70 {
        Some((b - 55) as u8)
    } else {
        None
    }
}

/// `text` is an even number of hex digit bytes.
pub open spec fn is_hex_text(text: Seq<u8>) -> bool {
    &&& text.len() % 2 == 0
    &&& forall|i: int| 0 <= i < text.len() ==> (#[trigger] hex_value(text[i])) is Some
}

/// The bytes that hex text spells, one per pair of digits, high nibble first.
pub open spec fn hex_decoding(text: Seq<u8>) -> Seq<u8> {
    Seq::new(
        text.len() / 2,
        |i: int| (hex_value(text[2 * i])->0 * 16 + hex_value(text[2 * i + 1])->0) as u8,
    )
}

/// `i` is the position of the first byte of `text` that is no hex digit.
pub open spec fn first_non_hex(text: Seq<u8>, i: int) -> bool {
    &&& 0 <= i < text.len()
    &&& hex_value(text[i]) is None
    &&& forall|j: int| 0 <= j < i ==> (#[trigger] hex_value(text[j])) is Some
}

/// A printable ASCII byte that a quoted character literal shows as itself
/// (not a quote mark or a backslash).
pub open spec fn shows_plain(b: u8) -> bool {
    0x20 <= b <= 0x7e && b != 0x22 && b != 0x27 && b != 0x5c
}

/// What is known of the error text for hex text that does not decode: "Odd
/// number of digits" for an odd length; for an even length whose first
/// non-digit byte is plain ASCII, the message naming that character and its
/// position.
pub open spec fn hex_error_text(text: Seq<u8>, m: Seq<char>) -> bool {
    &&& (m == "Odd number of digits"@ <==> text.len() % 2 != 0)
    &&& forall|i: int|
        text.len() % 2 == 0 && #[trigger] first_non_hex(text, i) && shows_plain(text[i]) ==> m
            == "Invalid character '"@ + seq![text[i] as char] + "' at position "@ + decimal(i as nat)
}

/// `hex::encode`: lowercase hex text of `data`.
#[verifier::external_body]
pub(crate) fn hex_encode(data: &[u8]) -> (res: String)
    ensures
        res@ == hex_encoding(data@),
{
    hex::encode(data)
}

/// `hex::decode`: the bytes that `text` spells, or the crate's error text.
/// It succeeds exactly on an even number of hex digits. Its error text is
/// "Odd number of digits" exactly on an odd length; on an even length it
/// names the first byte that is no hex digit and its position, as a quoted
/// character literal. That literal is stated here only for plain printable
/// ASCII; for other bytes (escaped in the literal) the text is left unsaid.
#[verifier::external_body]
pub(crate) fn hex_decode(text: &[u8]) -> (res: Result<Vec<u8>, String>)
    ensures
        res is Ok <==> is_hex_text(text@),
        res matches Ok(v) ==> v@ == hex_decoding(text@),
        res matches Err(m) ==> hex_error_text(text@, m@),
{
    match hex::decode(text) {
        Ok(v) => Ok(v),
        Err(e) => Err(e.to_string()),
    }
}

} // verus!
