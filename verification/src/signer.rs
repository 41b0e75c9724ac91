//! Signing: a 64-byte Ed25519 signature over the bytes of a message, set
//! into the signer's slot.

use vstd::prelude::*;
use crate::error::{failure, ErrorCategory, TransferError};
use crate::wire::overlong_list_message;
use crate::keys::Signature;
use crate::transaction::{Message, SignedTransaction, UnsignedTransaction};
use crate::wire::{encode_message, serialize_message};

verus! {

/// The number of bytes in a secret key.
pub const SECRET_KEY_LENGTH: usize = 32;

/// The number of bytes in a keypair: the secret key, then the public key.
pub const KEYPAIR_LENGTH: usize = 64;

/// The Ed25519 signature that `ed25519-dalek` gives for a message under a
/// 32-byte secret key.
pub uninterp spec fn ed25519_signature(secret_key: Seq<u8>, message: Seq<u8>) -> Seq<u8>;

/// Calls `SigningKey::from_bytes(secret_key).sign(message).to_bytes()` of
/// `ed25519-dalek`.
///
/// Trusted: the signature depends on the key and the message alone (the
/// scheme draws no randomness), so it is named [`ed25519_signature`];
/// nothing is claimed of which bytes come out.
#[verifier::external_body]
fn ed25519_sign(secret_key: &[u8; 32], message: &[u8]) -> (signature: [u8; 64])
    ensures
        signature@ == ed25519_signature(secret_key@, message@),
{
    let key = ed25519_dalek::SigningKey::from_bytes(secret_key);
    ed25519_dalek::Signer::sign(&key, message).to_bytes()
}

/// Signing is deterministic: the same secret key and the same message
/// bytes give the same signature bytes.
pub proof fn lemma_signing_is_deterministic(
    first_key: Seq<u8>,
    first_message: Seq<u8>,
    second_key: Seq<u8>,
    second_message: Seq<u8>,
)
    requires
        first_key == second_key,
        first_message == second_message,
    ensures
        ed25519_signature(first_key, first_message) == ed25519_signature(
            second_key,
            second_message,
        ),
{
}

/// A 32-byte secret key.
#[derive(Clone, Copy, PartialEq, Eq)]
pub struct SecretKey {
    bytes: [u8; 32],
}

impl View for SecretKey {
    type V = Seq<u8>;

    closed spec fn view(&self) -> Seq<u8> {
        self.bytes@
    }
}

/// The message of the failure to take the secret key of a keypair of
/// other than 64 bytes.
pub open spec fn keypair_length_message() -> Seq<char> {
    "a keypair must hold 64 bytes"@
}

impl SecretKey {
    /// A secret key always holds 32 bytes.
    pub broadcast proof fn lemma_length(self)
        ensures
            #[trigger] self@.len() == SECRET_KEY_LENGTH,
    {
    }

    /// The secret key with the given bytes.
    pub fn new(bytes: [u8; 32]) -> (key: SecretKey)
        ensures
            key@ == bytes@,
    {
        SecretKey { bytes }
    }

    /// The secret key of a keypair: its first 32 bytes. A keypair that
    /// does not hold exactly 64 bytes is rejected.
    pub fn from_keypair(keypair: &[u8]) -> (outcome: Result<SecretKey, TransferError>)
        ensures
            keypair@.len() == KEYPAIR_LENGTH ==> outcome is Ok && outcome->Ok_0@
                == keypair@.subrange(0, SECRET_KEY_LENGTH as int),
            keypair@.len() != KEYPAIR_LENGTH ==> outcome is Err && outcome->Err_0@ == failure(
                ErrorCategory::Signing,
                keypair_length_message(),
            ),
    {
        if keypair.len() != KEYPAIR_LENGTH {
            return Err(TransferError::new(ErrorCategory::Signing, "a keypair must hold 64 bytes"));
        }
        let mut bytes = [0u8; 32];
        let mut i: usize = 0;
        while i < 32
            invariant
                i <= 32,
                keypair@.len() == 64,
                forall|j: int| 0 <= j < i ==> bytes@[j] == keypair@[j],
            decreases 32 - i,
        {
            bytes[i] = keypair[i];
            i += 1;
        }
        Ok(SecretKey { bytes })
    }
}

/// Signs the given bytes with the given secret key.
pub fn sign_bytes(message_bytes: &[u8], secret_key: &SecretKey) -> (signature: Signature)
    ensures
        signature@ == ed25519_signature(secret_key@, message_bytes@),
{
    Signature::new(ed25519_sign(&secret_key.bytes, message_bytes))
}

/// The slots of a transaction that asks for `count` signatures, of which
/// only the one at `slot_index` is set.
pub open spec fn slots_with_one_set(count: nat, slot_index: int, signature: Seq<u8>) -> Seq<
    Option<Seq<u8>>,
> {
    Seq::new(
        count,
        |i: int|
            if i == slot_index {
                Some(signature)
            } else {
                None
            },
    )
}

/// With one signature set, a transaction is signed in full exactly where
/// its header asks for a single signature: transactions with several
/// signers cannot be completed here.
pub proof fn lemma_one_signature_completes_single_signer(
    count: nat,
    slot_index: int,
    signature: Seq<u8>,
)
    requires
        0 <= slot_index < count,
    ensures
        (forall|i: int|
            0 <= i < count ==> (#[trigger] slots_with_one_set(
                count,
                slot_index,
                signature,
            )[i]) is Some) <==> count == 1,
{
    let slots = slots_with_one_set(count, slot_index, signature);
    if count > 1 {
        let other = if slot_index == 0 {
            1int
        } else {
            0int
        };
        assert(slots[other] is None);
    }
}

/// The message of the failure to sign into a slot that the header does
/// not provide for.
pub open spec fn missing_slot_message() -> Seq<char> {
    "the signature slot is outside the required signatures"@
}

impl SignedTransaction {
    /// Attaches a signature to a message: one slot for each signature that
    /// the header asks for, the given signature in the slot at
    /// `slot_index`, every other slot unset. A slot index that the header
    /// does not provide for is rejected.
    pub fn with_signature(message: Message, slot_index: usize, signature: Signature) -> (outcome:
        Result<SignedTransaction, TransferError>)
        ensures
            slot_index < message.header.num_required_signatures ==> outcome is Ok
                && outcome->Ok_0@.message == message@ && outcome->Ok_0@.signatures
                == slots_with_one_set(
                message.header.num_required_signatures as nat,
                slot_index as int,
                signature@,
            ),
            slot_index >= message.header.num_required_signatures ==> outcome is Err
                && outcome->Err_0@ == failure(ErrorCategory::Validation, missing_slot_message()),
    {
        let count: usize = message.header.num_required_signatures as usize;
        if slot_index >= count {
            return Err(
                TransferError::new(
                    ErrorCategory::Validation,
                    "the signature slot is outside the required signatures",
                ),
            );
        }
        let mut signatures: Vec<Option<Signature>> = Vec::new();
        let mut i: usize = 0;
        while i < count
            invariant
                i <= count,
                signatures@.len() == i,
                forall|k: int|
                    0 <= k < i ==> (#[trigger] signatures@[k]) == (if k == slot_index {
                        Some(signature)
                    } else {
                        None
                    }),
            decreases count - i,
        {
            if i == slot_index {
                signatures.push(Some(signature));
            } else {
                signatures.push(None);
            }
            i += 1;
        }
        let signed = SignedTransaction { signatures, message };
        Ok(signed)
    }
}

impl UnsignedTransaction {
    /// Signs the transaction: writes the message in the binary layout,
    /// signs those bytes with the secret key, and sets the signature into
    /// the slot at `slot_index`. Every other slot stays unset.
    ///
    /// A message that cannot be written is a serialization failure; a slot
    /// index that the header does not provide for is a validation failure.
    pub fn sign(self, slot_index: usize, secret_key: &SecretKey) -> (outcome: Result<
        SignedTransaction,
        TransferError,
    >)
        ensures
            !self@.lengths_fit() ==> outcome is Err && outcome->Err_0@ == failure(
                ErrorCategory::Serialization,
                overlong_list_message(),
            ),
            self@.lengths_fit() && slot_index >= self@.header.num_required_signatures
                ==> outcome is Err && outcome->Err_0@ == failure(
                ErrorCategory::Validation,
                missing_slot_message(),
            ),
            self@.lengths_fit() && slot_index < self@.header.num_required_signatures
                ==> outcome is Ok && outcome->Ok_0@.message == self@ && outcome->Ok_0@.signatures
                == slots_with_one_set(
                self@.header.num_required_signatures as nat,
                slot_index as int,
                ed25519_signature(secret_key@, encode_message(self@)),
            ),
    {
        let message_bytes = match serialize_message(&self.message) {
            Ok(bytes) => bytes,
            Err(error) => {
                return Err(error);
            },
        };
        let signature = sign_bytes(message_bytes.as_slice(), secret_key);
        SignedTransaction::with_signature(self.message, slot_index, signature)
    }
}

} // verus!
