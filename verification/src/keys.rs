//! Account keys and ledger checkpoints: 32 raw bytes each, written as
//! base-58 text outside the library.

use vstd::prelude::*;
use crate::base58::{base58_decoding, base58_encoding, decode_base58, encode_base58};
use crate::error::{failure, ErrorCategory, Failure, TransferError};

verus! {

/// The number of raw bytes in a key or a blockhash.
pub const KEY_LENGTH: usize = 32;

/// What reading a 32-byte value from base-58 text gives: the decoded bytes
/// where the text decodes to exactly 32 of them, nothing otherwise.
pub open spec fn key_bytes_of_text(text: Seq<char>) -> Option<Seq<u8>> {
    match base58_decoding(text) {
        Some(bytes) => if bytes.len() == KEY_LENGTH {
            Some(bytes)
        } else {
            None
        },
        None => None,
    }
}

/// The message of the failure to make a key of other than 32 bytes.
pub open spec fn key_length_message() -> Seq<char> {
    "a public key must hold 32 bytes"@
}

/// The message of the failure to read a key from a text that is not
/// base-58.
pub open spec fn key_text_message() -> Seq<char> {
    "a public key must be base-58 text"@
}

/// The message of the failure to make a blockhash of other than 32 bytes.
pub open spec fn blockhash_length_message() -> Seq<char> {
    "a blockhash must hold 32 bytes"@
}

/// The message of the failure to read a blockhash from a text that is not
/// base-58.
pub open spec fn blockhash_text_message() -> Seq<char> {
    "a blockhash must be base-58 text"@
}

/// The failure to read a key from a text that does not stand for one: that
/// of the text where it is not base-58, that of the length otherwise.
pub open spec fn key_text_failure(text: Seq<char>) -> Failure {
    if base58_decoding(text) is None {
        failure(ErrorCategory::Validation, key_text_message())
    } else {
        failure(ErrorCategory::Validation, key_length_message())
    }
}

/// The failure to read a blockhash from a text that does not stand for
/// one: that of the text where it is not base-58, that of the length
/// otherwise.
pub open spec fn blockhash_text_failure(text: Seq<char>) -> Failure {
    if base58_decoding(text) is None {
        failure(ErrorCategory::Validation, blockhash_text_message())
    } else {
        failure(ErrorCategory::Validation, blockhash_length_message())
    }
}

/// Copies a slice of exactly 32 bytes into an array.
fn array_of_slice(bytes: &[u8]) -> (array: [u8; 32])
    requires
        bytes@.len() == KEY_LENGTH,
    ensures
        array@ == bytes@,
{
    let mut array = [0u8; 32];
    let mut i: usize = 0;
    while i < 32
        invariant
            i <= 32,
            bytes@.len() == 32,
            forall|j: int| 0 <= j < i ==> array@[j] == bytes@[j],
        decreases 32 - i,
    {
        array[i] = bytes[i];
        i += 1;
    }
    array
}

/// A 32-byte account identifier.
#[derive(Clone, Copy, Debug, PartialEq, Eq, Hash)]
pub struct PublicKey {
    bytes: [u8; 32],
}

impl View for PublicKey {
    type V = Seq<u8>;

    closed spec fn view(&self) -> Seq<u8> {
        self.bytes@
    }
}

impl PublicKey {
    /// A key always holds 32 bytes.
    pub broadcast proof fn lemma_length(self)
        ensures
            #[trigger] self@.len() == KEY_LENGTH,
    {
    }

    /// Two keys with the same bytes are the same key.
    pub proof fn lemma_equal_by_bytes(self, other: PublicKey)
        requires
            self@ == other@,
        ensures
            self == other,
    {
        assert(self.bytes =~= other.bytes);
    }

    /// The key with the given bytes.
    pub fn new(bytes: [u8; 32]) -> (key: PublicKey)
        ensures
            key@ == bytes@,
    {
        PublicKey { bytes }
    }

    /// The key made of the given bytes, which must be exactly 32.
    pub fn from_bytes(bytes: &[u8]) -> (outcome: Result<PublicKey, TransferError>)
        ensures
            bytes@.len() == KEY_LENGTH ==> outcome is Ok && outcome->Ok_0@ == bytes@,
            bytes@.len() != KEY_LENGTH ==> outcome is Err && outcome->Err_0@ == failure(
                ErrorCategory::Validation,
                key_length_message(),
            ),
    {
        if bytes.len() == 32 {
            Ok(PublicKey { bytes: array_of_slice(bytes) })
        } else {
            Err(TransferError::new(ErrorCategory::Validation, "a public key must hold 32 bytes"))
        }
    }

    /// Reads a key from its base-58 text. The text is rejected where it is
    /// not base-58 or does not stand for exactly 32 bytes.
    pub fn from_base58(text: &str) -> (outcome: Result<PublicKey, TransferError>)
        ensures
            match key_bytes_of_text(text@) {
                Some(bytes) => outcome is Ok && outcome->Ok_0@ == bytes,
                None => outcome is Err && outcome->Err_0@ == key_text_failure(text@),
            },
    {
        match decode_base58(text) {
            Ok(bytes) => PublicKey::from_bytes(bytes.as_slice()),
            Err(_) => Err(
                TransferError::new(ErrorCategory::Validation, "a public key must be base-58 text"),
            ),
        }
    }

    /// The key's base-58 text.
    pub fn to_base58(&self) -> (text: String)
        ensures
            text@ == base58_encoding(self@),
    {
        encode_base58(self.bytes.as_slice())
    }

    /// The key's raw bytes.
    pub fn to_bytes(&self) -> (bytes: [u8; 32])
        ensures
            bytes@ == self@,
    {
        self.bytes
    }
}

/// A 32-byte checkpoint of the ledger, which bounds how long a transaction
/// stays valid.
#[derive(Clone, Copy, Debug, PartialEq, Eq, Hash)]
pub struct BlockHash {
    bytes: [u8; 32],
}

impl View for BlockHash {
    type V = Seq<u8>;

    closed spec fn view(&self) -> Seq<u8> {
        self.bytes@
    }
}

impl BlockHash {
    /// A blockhash always holds 32 bytes.
    pub broadcast proof fn lemma_length(self)
        ensures
            #[trigger] self@.len() == KEY_LENGTH,
    {
    }

    /// Two blockhashes with the same bytes are the same blockhash.
    pub proof fn lemma_equal_by_bytes(self, other: BlockHash)
        requires
            self@ == other@,
        ensures
            self == other,
    {
        assert(self.bytes =~= other.bytes);
    }

    /// The blockhash with the given bytes.
    pub fn new(bytes: [u8; 32]) -> (hash: BlockHash)
        ensures
            hash@ == bytes@,
    {
        BlockHash { bytes }
    }

    /// The blockhash made of the given bytes, which must be exactly 32.
    pub fn from_bytes(bytes: &[u8]) -> (outcome: Result<BlockHash, TransferError>)
        ensures
            bytes@.len() == KEY_LENGTH ==> outcome is Ok && outcome->Ok_0@ == bytes@,
            bytes@.len() != KEY_LENGTH ==> outcome is Err && outcome->Err_0@ == failure(
                ErrorCategory::Validation,
                blockhash_length_message(),
            ),
    {
        if bytes.len() == 32 {
            Ok(BlockHash { bytes: array_of_slice(bytes) })
        } else {
            Err(TransferError::new(ErrorCategory::Validation, "a blockhash must hold 32 bytes"))
        }
    }

    /// Reads a blockhash from its base-58 text. The text is rejected where
    /// it is not base-58 or does not stand for exactly 32 bytes.
    pub fn from_base58(text: &str) -> (outcome: Result<BlockHash, TransferError>)
        ensures
            match key_bytes_of_text(text@) {
                Some(bytes) => outcome is Ok && outcome->Ok_0@ == bytes,
                None => outcome is Err && outcome->Err_0@ == blockhash_text_failure(text@),
            },
    {
        match decode_base58(text) {
            Ok(bytes) => BlockHash::from_bytes(bytes.as_slice()),
            Err(_) => Err(
                TransferError::new(ErrorCategory::Validation, "a blockhash must be base-58 text"),
            ),
        }
    }

    /// The blockhash's base-58 text.
    pub fn to_base58(&self) -> (text: String)
        ensures
            text@ == base58_encoding(self@),
    {
        encode_base58(self.bytes.as_slice())
    }

    /// The blockhash's raw bytes.
    pub fn to_bytes(&self) -> (bytes: [u8; 32])
        ensures
            bytes@ == self@,
    {
        self.bytes
    }
}

/// The number of bytes in a signature.
pub const SIGNATURE_LENGTH: usize = 64;

/// A 64-byte signature over the bytes of a message.
#[derive(Clone, Copy, Debug, PartialEq, Eq, Hash)]
pub struct Signature {
    bytes: [u8; 64],
}

impl View for Signature {
    type V = Seq<u8>;

    closed spec fn view(&self) -> Seq<u8> {
        self.bytes@
    }
}

impl Signature {
    /// A signature always holds 64 bytes.
    pub broadcast proof fn lemma_length(self)
        ensures
            #[trigger] self@.len() == SIGNATURE_LENGTH,
    {
    }

    /// The signature with the given bytes.
    pub fn new(bytes: [u8; 64]) -> (signature: Signature)
        ensures
            signature@ == bytes@,
    {
        Signature { bytes }
    }

    /// The signature's base-58 text, which is how the ledger names a
    /// transaction.
    pub fn to_base58(&self) -> (text: String)
        ensures
            text@ == base58_encoding(self@),
    {
        encode_base58(self.bytes.as_slice())
    }

    /// The signature's raw bytes.
    pub fn to_bytes(&self) -> (bytes: [u8; 64])
        ensures
            bytes@ == self@,
    {
        self.bytes
    }
}

} // verus!
