//! Hexadecimal text for byte strings: the form in which digests, keys and
//! signatures are stored.

use vstd::prelude::*;

verus! {

/// The sixteen lowercase hexadecimal digit characters, by value.
pub open spec fn hex_chars() -> Seq<char> {
    seq!['0', '1', '2', '3', '4', '5', '6', '7', '8', '9', 'a', 'b', 'c', 'd', 'e', 'f']
}

/// Lowercase hexadecimal text of `bytes`: two digits per byte, the high
/// half of each byte first.
pub open spec fn hex_lower(bytes: Seq<u8>) -> Seq<char> {
    Seq::new(
        2 * bytes.len(),
        |i: int|
            if i % 2 == 0 {
                hex_chars()[bytes[i / 2] as int / 16]
            } else {
                hex_chars()[bytes[i / 2] as int % 16]
            },
    )
}

/// The value of a hexadecimal digit of either case, `None` for any other
/// character.
pub open spec fn hex_value(c: char) -> Option<int> {
    let code = c as u32 as int;
    if 0x30 <= code <= 0x39 {
        Some(code - 0x30)
    } else if 0x61 <= code <= 0x66 {
        Some(code - 0x61 + 10)
    } else if 0x41 <= code <= 0x46 {
        Some(code - 0x41 + 10)
    } else {
        None
    }
}

/// Whether `text` is hexadecimal text of whole bytes: an even number of
/// characters, each a hexadecimal digit.
pub open spec fn is_hex(text: Seq<char>) -> bool {
    &&& text.len() % 2 == 0
    &&& forall|i: int| 0 <= i < text.len() ==> (#[trigger] hex_value(text[i])) is Some
}

/// The bytes that hexadecimal text stands for, `None` where the text is not
/// hexadecimal text of whole bytes.
pub open spec fn hex_decode(text: Seq<char>) -> Option<Seq<u8>> {
    if is_hex(text) {
        Some(
            Seq::new(
                text.len() / 2,
                |i: int| (16 * hex_value(text[2 * i])->0 + hex_value(text[2 * i + 1])->0) as u8,
            ),
        )
    } else {
        None
    }
}

/// `hex::encode` on a byte slice: each byte becomes two characters of the
/// lowercase digit table, the one for its high four bits first.
#[verifier::external_body]
pub(crate) fn encode(bytes: &[u8]) -> (text: String)
    ensures
        text@ == hex_lower(bytes@),
{
    hex::encode(bytes)
}

/// `hex::decode` on a string: it fails on an odd number of bytes and on any
/// byte that is not a digit `0-9`, `a-f` or `A-F`; otherwise each pair of
/// digits gives one byte, the first digit its high four bits. The error's
/// detail is dropped.
#[verifier::external_body]
pub(crate) fn decode(text: &str) -> (bytes: Option<Vec<u8>>)
    ensures
        match bytes {
            Some(v) => hex_decode(text@) == Some(v@),
            None => hex_decode(text@) is None,
        },
{
    hex::decode(text).ok()
}

/// Hexadecimal text of any bytes has twice their length and is valid
/// hexadecimal text.
pub proof fn lemma_hex_lower_is_hex(bytes: Seq<u8>)
    ensures
        hex_lower(bytes).len() == 2 * bytes.len(),
        is_hex(hex_lower(bytes)),
{
}

/// Decoding undoes encoding: the hexadecimal text of any bytes, keys and
/// signatures among them, decodes to those bytes.
pub proof fn lemma_decode_encode(bytes: Seq<u8>)
    ensures
        hex_decode(hex_lower(bytes)) == Some(bytes),
{
    lemma_hex_lower_is_hex(bytes);
    assert(hex_decode(hex_lower(bytes))->0 =~= bytes);
}

} // verus!
