//! Base-64 text, as the `base64` crate writes it with its standard engine.

use vstd::prelude::*;

verus! {

/// The text that `base64` encodes a byte sequence to, with the standard
/// alphabet and padding.
pub uninterp spec fn base64_encoding(bytes: Seq<u8>) -> Seq<char>;

/// Calls `Engine::encode` on `base64::engine::general_purpose::STANDARD`.
///
/// Trusted: the text depends on the bytes alone, so it is named
/// [`base64_encoding`]; nothing is claimed of which characters come out.
#[verifier::external_body]
pub(crate) fn encode_base64(bytes: &[u8]) -> (text: String)
    ensures
        text@ == base64_encoding(bytes@),
{
    base64::Engine::encode(&base64::engine::general_purpose::STANDARD, bytes)
}

} // verus!
