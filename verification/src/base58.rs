//! Base-58 text, as the `bs58` crate reads and writes it with its default
//! alphabet.

use vstd::prelude::*;

verus! {

/// The error type of `bs58`'s decoder, carried through unread.
#[verifier::external_type_specification]
#[verifier::external_body]
pub struct ExDecodeError(bs58::decode::Error);

/// The bytes that `bs58` decodes a text to, or `None` where it rejects the
/// text.
pub uninterp spec fn base58_decoding(text: Seq<char>) -> Option<Seq<u8>>;

/// The text that `bs58` encodes a byte sequence to.
pub uninterp spec fn base58_encoding(bytes: Seq<u8>) -> Seq<char>;

/// Calls `bs58::decode(text).into_vec()`.
///
/// Trusted: the outcome depends on the text alone, so it is named
/// [`base58_decoding`]; nothing is claimed of which bytes come out.
#[verifier::external_body]
pub(crate) fn decode_base58(text: &str) -> (decoded: Result<Vec<u8>, bs58::decode::Error>)
    ensures
        match decoded {
            Ok(bytes) => base58_decoding(text@) == Some(bytes@),
            Err(_) => base58_decoding(text@) is None,
        },
{
    bs58::decode(text).into_vec()
}

/// Calls `bs58::encode(bytes).into_string()`.
///
/// Trusted: the text depends on the bytes alone, so it is named
/// [`base58_encoding`]; nothing is claimed of which characters come out.
#[verifier::external_body]
pub(crate) fn encode_base58(bytes: &[u8]) -> (text: String)
    ensures
        text@ == base58_encoding(bytes@),
{
    bs58::encode(bytes).into_string()
}

/// Whether a character is a digit of base 58: a decimal digit but zero, or
/// a letter but `I`, `O` and `l`.
pub open spec fn is_base58_char(c: char) -> bool {
    let code = c as u32;
    ||| 0x31 <= code <= 0x39
    ||| 0x41 <= code <= 0x48
    ||| 0x4A <= code <= 0x4E
    ||| 0x50 <= code <= 0x5A
    ||| 0x61 <= code <= 0x6B
    ||| 0x6D <= code <= 0x7A
}

/// Whether a text is made of digits of base 58 alone.
pub open spec fn is_base58_text(text: Seq<char>) -> bool {
    forall|i: int| 0 <= i < text.len() ==> is_base58_char(#[trigger] text[i])
}

} // verus!
