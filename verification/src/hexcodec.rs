//! Hexadecimal text, through the `hex` crate.
use vstd::prelude::*;

verus! {

/// The value of an ASCII hexadecimal digit byte (either case).
pub open spec fn hex_digit_value(c: u8) -> Option<u8> {
    if 0x30 <= c <= 0x39 {
        Some((c - 0x30) as u8)
    } else if 0x61 <= c <= 0x66 {
        Some((c - 0x61 + 10) as u8)
    } else if 0x41 <= c <= 0x46 {
        Some((c - 0x41 + 10) as u8)
    } else {
        None
    }
}

/// Whether every byte of `text` is a hexadecimal digit.
pub open spec fn all_hex_digits(text: Seq<u8>) -> bool {
    forall|i: int| 0 <= i < text.len() ==> (#[trigger] hex_digit_value(text[i])) is Some
}

/// The bytes that a hexadecimal text stands for: two digits per byte, the
/// first the high half; `None` for a text of odd length or with a byte
/// that is not a digit.
pub open spec fn hex_decoded(text: Seq<u8>) -> Option<Seq<u8>> {
    if text.len() % 2 == 0 && all_hex_digits(text) {
        Some(
            Seq::new(
                text.len() / 2,
                |i: int|
                    (hex_digit_value(text[2 * i])->0 * 16 + hex_digit_value(text[2 * i + 1])->0) as u8,
            ),
        )
    } else {
        None
    }
}

/// The lower-case hexadecimal digit for a value below sixteen.
pub open spec fn hex_char(v: nat) -> char {
    if v < 10 {
        (v + 48) as char
    } else {
        (v - 10 + 97) as char
    }
}

/// The lower-case hexadecimal text of `data`: two digits per byte, the high
/// half first.
pub open spec fn hex_encoded(data: Seq<u8>) -> Seq<char> {
    Seq::new(
        2 * data.len(),
        |i: int|
            if i % 2 == 0 {
                hex_char((data[i / 2] / 16) as nat)
            } else {
                hex_char((data[i / 2] % 16) as nat)
            },
    )
}

/// Decodes hexadecimal text with `hex::decode`. The crate accepts an
/// even number of bytes, each `0-9`, `a-f` or `A-F`, and turns each pair
/// into one byte, high half first; any other text is an error, which this
/// item reports as `None`.
#[verifier::external_body]
pub(crate) fn hex_decode(text: &[u8]) -> (decoded: Option<Vec<u8>>)
    ensures
        match decoded {
            Some(bytes) => hex_decoded(text@) == Some(bytes@),
            None => hex_decoded(text@) is None,
        },
{
    hex::decode(text).ok()
}

/// Encodes bytes as lower-case hexadecimal text with `hex::encode`: two
/// characters per byte, high half first, from `0123456789abcdef`.
#[verifier::external_body]
pub(crate) fn hex_encode(data: &[u8]) -> (text: String)
    ensures
        text@ == hex_encoded(data@),
{
    hex::encode(data)
}

} // verus!
