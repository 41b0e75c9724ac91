use solana_bridge::error::ErrorCategory;
use solana_bridge::keys::{BlockHash, PublicKey, Signature};

const TREASURY: &str = "29HY6PqigFtdgyBTiiQQ5XCd3MxrXWSFtMWysqgHK5eJ";

#[test]
fn system_program_text_is_32_zero_bytes() {
    let key = PublicKey::from_base58("11111111111111111111111111111111").unwrap();
    assert_eq!(key.to_bytes(), [0u8; 32]);
    assert_eq!(PublicKey::new([0u8; 32]).to_base58(), "11111111111111111111111111111111");
}

#[test]
fn key_text_reads_and_writes_back() {
    let key = PublicKey::from_base58(TREASURY).unwrap();
    assert_eq!(key.to_base58(), TREASURY);
    assert_eq!(PublicKey::new(key.to_bytes()), key);
    assert_ne!(key.to_bytes(), [0u8; 32]);
}

#[test]
fn key_of_known_bytes_has_known_text() {
    // 31 zero bytes and a one: 31 times the zero digit, then the digit for one.
    let mut bytes = [0u8; 32];
    bytes[31] = 1;
    assert_eq!(PublicKey::new(bytes).to_base58(), "11111111111111111111111111111112");
    assert_eq!(
        PublicKey::from_base58("11111111111111111111111111111112").unwrap().to_bytes(),
        bytes
    );
}

#[test]
fn text_with_a_character_outside_the_alphabet_is_a_validation_failure() {
    // `0`, `O`, `I` and `l` are not base-58 digits.
    let error = PublicKey::from_base58("0OIl").unwrap_err();
    assert_eq!(error.category, ErrorCategory::Validation);
    let error = PublicKey::from_base58("29HY6PqigFtdgyBTiiQQ5XCd3MxrXWSFtMWysqgHK5e!").unwrap_err();
    assert_eq!(error.category, ErrorCategory::Validation);
}

#[test]
fn text_of_another_length_is_a_validation_failure() {
    assert_eq!(
        PublicKey::from_base58("he11owor1d").unwrap_err().category,
        ErrorCategory::Validation
    );
    assert_eq!(PublicKey::from_base58("").unwrap_err().category, ErrorCategory::Validation);
    assert_eq!(
        PublicKey::from_base58("111111111111111111111111111111111").unwrap_err().category,
        ErrorCategory::Validation
    );
}

#[test]
fn key_from_bytes_takes_exactly_32() {
    assert_eq!(PublicKey::from_bytes(&[7u8; 32]).unwrap().to_bytes(), [7u8; 32]);
    assert_eq!(PublicKey::from_bytes(&[7u8; 31]).unwrap_err().category, ErrorCategory::Validation);
    assert_eq!(PublicKey::from_bytes(&[7u8; 33]).unwrap_err().category, ErrorCategory::Validation);
}

#[test]
fn blockhash_reads_like_a_key() {
    let hash = BlockHash::from_base58(TREASURY).unwrap();
    assert_eq!(hash.to_base58(), TREASURY);
    assert_eq!(hash.to_bytes(), PublicKey::from_base58(TREASURY).unwrap().to_bytes());
    assert_eq!(BlockHash::from_base58("").unwrap_err().category, ErrorCategory::Validation);
    assert_eq!(BlockHash::from_bytes(&[1u8; 32]).unwrap(), BlockHash::new([1u8; 32]));
    assert_eq!(BlockHash::from_bytes(&[1u8; 8]).unwrap_err().category, ErrorCategory::Validation);
}

#[test]
fn signature_text_is_base_58() {
    let signature = Signature::new([0u8; 64]);
    assert_eq!(signature.to_base58(), "1".repeat(64));
    assert_eq!(signature.to_bytes(), [0u8; 64]);
}

#[test]
fn failure_to_read_a_key_says_what_is_wrong_with_the_text() {
    let error = PublicKey::from_base58("0OIl").unwrap_err();
    assert_eq!(error.message, "a public key must be base-58 text");
    let error = PublicKey::from_base58("he11owor1d").unwrap_err();
    assert_eq!(error.message, "a public key must hold 32 bytes");
    let error = PublicKey::from_bytes(&[0u8; 5]).unwrap_err();
    assert_eq!(error.message, "a public key must hold 32 bytes");
    let error = BlockHash::from_base58("!").unwrap_err();
    assert_eq!(error.message, "a blockhash must be base-58 text");
    let error = BlockHash::from_base58("").unwrap_err();
    assert_eq!(error.message, "a blockhash must hold 32 bytes");
    let error = BlockHash::from_bytes(&[0u8; 33]).unwrap_err();
    assert_eq!(error.message, "a blockhash must hold 32 bytes");
}
