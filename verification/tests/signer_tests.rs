use solana_bridge::error::ErrorCategory;
use solana_bridge::keys::{BlockHash, PublicKey, Signature};
use solana_bridge::signer::{sign_bytes, SecretKey};
use solana_bridge::transaction::{
    Instruction, Message, MessageHeader, SignedTransaction, UnsignedTransaction,
};
use solana_bridge::wire::{serialize_message, serialize_signed_transaction};

fn hex(text: &str) -> Vec<u8> {
    (0..text.len() / 2).map(|i| u8::from_str_radix(&text[2 * i..2 * i + 2], 16).unwrap()).collect()
}

fn secret(text: &str) -> SecretKey {
    let bytes: [u8; 32] = hex(text).try_into().unwrap();
    SecretKey::new(bytes)
}

const SECRET_ONE: &str = "9d61b19deffd5a60ba844af492ec2cc44449c5697b326919703bac031cae7f60";
const PUBLIC_ONE: &str = "d75a980182b10ab7d54bfed3c964073a0ee172f3daa62325af021a68f707511a";

fn message(required: u8) -> Message {
    Message {
        header: MessageHeader {
            num_required_signatures: required,
            num_readonly_signed_accounts: 0,
            num_readonly_unsigned_accounts: 1,
        },
        account_keys: vec![
            PublicKey::from_bytes(&hex(PUBLIC_ONE)).unwrap(),
            PublicKey::new([2u8; 32]),
            PublicKey::new([0u8; 32]),
        ],
        recent_blockhash: BlockHash::new([8u8; 32]),
        instructions: vec![Instruction {
            program_id_index: 2,
            accounts: vec![0, 1],
            data: vec![2, 0, 0, 0, 1, 0, 0, 0, 0, 0, 0, 0],
        }],
    }
}

#[test]
fn signature_of_the_empty_message_is_the_published_one() {
    let signature = sign_bytes(&[], &secret(SECRET_ONE));
    assert_eq!(
        signature.to_bytes().to_vec(),
        hex("e5564300c360ac729086e2cc806e828a84877f1eb8e5d974d873e065224901555fb8821590a33bacc61e39701cf9b46bd25bf5f0595bbe24655141438e7a100b")
    );
}

#[test]
fn signature_verifies_under_the_public_key() {
    let bytes = serialize_message(&message(1)).unwrap();
    let signature = sign_bytes(&bytes, &secret(SECRET_ONE));
    let public: [u8; 32] = hex(PUBLIC_ONE).try_into().unwrap();
    let verifying = ed25519_dalek::VerifyingKey::from_bytes(&public).unwrap();
    let checked = ed25519_dalek::Signature::from_bytes(&signature.to_bytes());
    assert!(verifying.verify_strict(&bytes, &checked).is_ok());
    assert!(verifying.verify_strict(b"another message", &checked).is_err());
}

#[test]
fn signing_twice_gives_the_same_bytes() {
    let bytes = serialize_message(&message(1)).unwrap();
    let first = sign_bytes(&bytes, &secret(SECRET_ONE));
    let second = sign_bytes(&bytes, &secret(SECRET_ONE));
    assert_eq!(first.to_bytes(), second.to_bytes());
    let signed_first = UnsignedTransaction { message: message(1) }.sign(0, &secret(SECRET_ONE));
    let signed_second = UnsignedTransaction { message: message(1) }.sign(0, &secret(SECRET_ONE));
    assert_eq!(signed_first, signed_second);
}

#[test]
fn signature_depends_on_message_and_key() {
    let key = secret(SECRET_ONE);
    let other = SecretKey::new([1u8; 32]);
    assert_ne!(sign_bytes(b"a", &key), sign_bytes(b"b", &key));
    assert_ne!(sign_bytes(b"a", &key), sign_bytes(b"a", &other));
}

#[test]
fn secret_key_is_the_first_half_of_the_keypair() {
    let mut keypair = hex(SECRET_ONE);
    keypair.extend_from_slice(&hex(PUBLIC_ONE));
    let key = SecretKey::from_keypair(&keypair).unwrap();
    assert!(key == secret(SECRET_ONE));
    assert_eq!(sign_bytes(b"m", &key), sign_bytes(b"m", &secret(SECRET_ONE)));
}

#[test]
fn keypair_of_another_length_is_a_signing_failure() {
    for length in [0usize, 32, 63, 65] {
        match SecretKey::from_keypair(&vec![1u8; length]) {
            Err(error) => assert_eq!(error.category, ErrorCategory::Signing),
            Ok(_) => panic!("a keypair of {} bytes was accepted", length),
        }
    }
}

#[test]
fn signature_is_set_into_its_slot_and_the_others_stay_unset() {
    let signed = UnsignedTransaction { message: message(3) }.sign(1, &secret(SECRET_ONE)).unwrap();
    let bytes = serialize_message(&message(3)).unwrap();
    let signature = sign_bytes(&bytes, &secret(SECRET_ONE));
    assert_eq!(signed.signatures, vec![None, Some(signature), None]);
    assert_eq!(signed.message, message(3));
    assert!(!signed.is_fully_signed());
}

#[test]
fn single_signer_transaction_is_fully_signed() {
    let signed = UnsignedTransaction { message: message(1) }.sign(0, &secret(SECRET_ONE)).unwrap();
    assert_eq!(signed.signatures.len(), 1);
    assert!(signed.is_fully_signed());
}

#[test]
fn slot_outside_the_required_signatures_is_a_validation_failure() {
    let error =
        UnsignedTransaction { message: message(1) }.sign(1, &secret(SECRET_ONE)).unwrap_err();
    assert_eq!(error.category, ErrorCategory::Validation);
    let error =
        UnsignedTransaction { message: message(0) }.sign(0, &secret(SECRET_ONE)).unwrap_err();
    assert_eq!(error.category, ErrorCategory::Validation);
    let error =
        SignedTransaction::with_signature(message(2), 2, Signature::new([1u8; 64])).unwrap_err();
    assert_eq!(error.category, ErrorCategory::Validation);
}

#[test]
fn message_that_cannot_be_written_is_not_signed() {
    let mut long = message(1);
    long.instructions[0].data = vec![0u8; 256];
    let error = UnsignedTransaction { message: long }.sign(0, &secret(SECRET_ONE)).unwrap_err();
    assert_eq!(error.category, ErrorCategory::Serialization);
}

#[test]
fn slots_must_match_the_header_to_be_fully_signed() {
    let signature = Signature::new([1u8; 64]);
    let mut signed = SignedTransaction::with_signature(message(1), 0, signature).unwrap();
    assert!(signed.is_fully_signed());
    signed.signatures.push(Some(signature));
    assert!(!signed.is_fully_signed());
    signed.signatures.clear();
    assert!(!signed.is_fully_signed());
}

#[test]
fn signed_transaction_is_slots_then_message() {
    let signature = Signature::new([0x5A; 64]);
    let signed = SignedTransaction::with_signature(message(2), 1, signature).unwrap();
    let bytes = serialize_signed_transaction(&signed).unwrap();
    let mut expected = vec![2u8];
    expected.extend_from_slice(&[0u8; 64]);
    expected.extend_from_slice(&[0x5A; 64]);
    expected.extend_from_slice(&serialize_message(&message(2)).unwrap());
    assert_eq!(bytes, expected);
}

#[test]
fn signed_transaction_with_too_many_slots_is_a_serialization_failure() {
    let signed = SignedTransaction { signatures: vec![None; 256], message: message(1) };
    assert_eq!(
        serialize_signed_transaction(&signed).unwrap_err().category,
        ErrorCategory::Serialization
    );
    let signed = SignedTransaction { signatures: vec![None; 255], message: message(1) };
    assert_eq!(serialize_signed_transaction(&signed).unwrap().len(), 1 + 64 * 255 + 150);
    let mut long = message(1);
    long.instructions[0].accounts = vec![0u8; 256];
    let signed = SignedTransaction { signatures: vec![None], message: long };
    assert_eq!(
        serialize_signed_transaction(&signed).unwrap_err().category,
        ErrorCategory::Serialization
    );
}

#[test]
fn failures_of_signing_say_what_is_wrong() {
    match SecretKey::from_keypair(&[1u8; 10]) {
        Err(error) => assert_eq!(error.message, "a keypair must hold 64 bytes"),
        Ok(_) => panic!("a keypair of 10 bytes was accepted"),
    }
    let error =
        UnsignedTransaction { message: message(1) }.sign(1, &secret(SECRET_ONE)).unwrap_err();
    assert_eq!(error.message, "the signature slot is outside the required signatures");
    let mut long = message(1);
    long.instructions[0].data = vec![0u8; 256];
    let error = UnsignedTransaction { message: long }.sign(0, &secret(SECRET_ONE)).unwrap_err();
    assert_eq!(error.message, "a list is too long for its one-byte length");
    let signed = SignedTransaction { signatures: vec![None; 256], message: message(1) };
    assert_eq!(
        serialize_signed_transaction(&signed).unwrap_err().message,
        "there are too many signature slots for a one-byte length"
    );
}
