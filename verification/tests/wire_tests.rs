use solana_bridge::error::ErrorCategory;
use solana_bridge::keys::{BlockHash, PublicKey};
use solana_bridge::transaction::{
    AccountRole, Instruction, Message, MessageHeader, UnsignedTransaction,
};
use solana_bridge::wire::{
    deserialize_message, serialize_message, serialize_unsigned_transaction,
};

fn key(fill: u8) -> PublicKey {
    PublicKey::new([fill; 32])
}

fn message_with(keys: usize, accounts: usize, data: usize) -> Message {
    Message {
        header: MessageHeader {
            num_required_signatures: 1,
            num_readonly_signed_accounts: 0,
            num_readonly_unsigned_accounts: 1,
        },
        account_keys: (0..keys).map(|i| key((i % 251) as u8)).collect(),
        recent_blockhash: BlockHash::new([9u8; 32]),
        instructions: vec![Instruction {
            program_id_index: 0,
            accounts: vec![0u8; accounts],
            data: vec![7u8; data],
        }],
    }
}

fn small_message() -> Message {
    Message {
        header: MessageHeader {
            num_required_signatures: 1,
            num_readonly_signed_accounts: 0,
            num_readonly_unsigned_accounts: 1,
        },
        account_keys: vec![key(0xAA), key(0xBB)],
        recent_blockhash: BlockHash::new([0xCC; 32]),
        instructions: vec![
            Instruction { program_id_index: 1, accounts: vec![0, 1], data: vec![5, 6, 7] },
            Instruction { program_id_index: 0, accounts: vec![], data: vec![] },
        ],
    }
}

fn small_message_bytes() -> Vec<u8> {
    let mut expected = vec![1u8, 0, 1, 2];
    expected.extend_from_slice(&[0xAA; 32]);
    expected.extend_from_slice(&[0xBB; 32]);
    expected.extend_from_slice(&[0xCC; 32]);
    expected.extend_from_slice(&[2, 1, 2, 0, 1, 3, 5, 6, 7, 0, 0, 0]);
    expected
}

#[test]
fn message_is_written_byte_for_byte() {
    assert_eq!(serialize_message(&small_message()).unwrap(), small_message_bytes());
}

#[test]
fn unsigned_transaction_is_written_as_its_message() {
    let transaction = UnsignedTransaction { message: small_message() };
    assert_eq!(serialize_unsigned_transaction(&transaction).unwrap(), small_message_bytes());
}

#[test]
fn empty_message_is_header_count_blockhash_count() {
    let message = Message {
        header: MessageHeader {
            num_required_signatures: 0,
            num_readonly_signed_accounts: 0,
            num_readonly_unsigned_accounts: 0,
        },
        account_keys: vec![],
        recent_blockhash: BlockHash::new([3u8; 32]),
        instructions: vec![],
    };
    let bytes = serialize_message(&message).unwrap();
    let mut expected = vec![0u8, 0, 0, 0];
    expected.extend_from_slice(&[3u8; 32]);
    expected.push(0);
    assert_eq!(bytes, expected);
    assert_eq!(deserialize_message(&bytes), Some(message));
}

#[test]
fn account_key_section_takes_one_byte_and_32_for_each_key() {
    for count in [0usize, 1, 2, 3, 17, 127, 128, 255] {
        let with_keys = serialize_message(&message_with(count, 0, 0)).unwrap();
        let without = serialize_message(&message_with(0, 0, 0)).unwrap();
        assert_eq!(with_keys.len() - without.len() + 1, 1 + 32 * count);
        assert_eq!(with_keys[3] as usize, count);
    }
}

#[test]
fn reading_back_gives_the_message() {
    let message = small_message();
    let bytes = serialize_message(&message).unwrap();
    let read = deserialize_message(&bytes).unwrap();
    assert_eq!(read.header, message.header);
    assert_eq!(read.account_keys, message.account_keys);
    assert_eq!(read.recent_blockhash, message.recent_blockhash);
    assert_eq!(read.instructions, message.instructions);
}

#[test]
fn reading_back_gives_the_message_at_every_boundary() {
    for (keys, accounts, data) in
        [(127, 127, 127), (128, 128, 128), (255, 255, 255), (1, 0, 255), (0, 0, 0)]
    {
        let message = message_with(keys, accounts, data);
        let bytes = serialize_message(&message).unwrap();
        assert_eq!(deserialize_message(&bytes), Some(message));
    }
}

#[test]
fn truncated_bytes_are_not_a_message() {
    let bytes = small_message_bytes();
    for length in 0..bytes.len() {
        assert_eq!(deserialize_message(&bytes[..length]), None);
    }
}

#[test]
fn trailing_bytes_are_not_a_message() {
    let mut bytes = small_message_bytes();
    bytes.push(0);
    assert_eq!(deserialize_message(&bytes), None);
}

#[test]
fn lengths_up_to_127_read_the_same_in_the_ledger_format() {
    let message = message_with(127, 127, 127);
    assert!(message.is_ledger_compatible());
    let bytes = serialize_message(&message).unwrap();
    assert_eq!(bytes[3], 127);
    let instructions_at = 4 + 32 * 127 + 32;
    assert_eq!(bytes[instructions_at], 1);
    assert_eq!(bytes[instructions_at + 2], 127);
    assert_eq!(bytes[instructions_at + 3 + 127], 127);
}

#[test]
fn lengths_from_128_keep_their_single_byte() {
    // The ledger's own format would write 128 as the two bytes 0x80 0x01.
    let message = message_with(128, 128, 128);
    assert!(!message.is_ledger_compatible());
    assert!(message.lengths_fit());
    let bytes = serialize_message(&message).unwrap();
    assert_eq!(bytes[3], 0x80);
    assert_eq!(bytes[4], 0);
    let instructions_at = 4 + 32 * 128 + 32;
    assert_eq!(bytes[instructions_at + 2], 0x80);
    assert_eq!(bytes[instructions_at + 3 + 128], 0x80);
    assert_eq!(bytes.len(), 4 + 32 * 128 + 32 + 1 + 3 + 128 + 128);
}

#[test]
fn lengths_of_255_are_the_last_that_are_written() {
    let message = message_with(255, 255, 255);
    let bytes = serialize_message(&message).unwrap();
    assert_eq!(bytes[3], 0xFF);
    let instructions_at = 4 + 32 * 255 + 32;
    assert_eq!(bytes[instructions_at + 2], 0xFF);
    assert_eq!(bytes[instructions_at + 3 + 255], 0xFF);
}

#[test]
fn more_than_255_account_keys_are_a_serialization_failure() {
    let message = message_with(256, 0, 0);
    assert!(!message.lengths_fit());
    let error = serialize_message(&message).unwrap_err();
    assert_eq!(error.category, ErrorCategory::Serialization);
}

#[test]
fn more_than_255_instruction_accounts_are_a_serialization_failure() {
    let error = serialize_message(&message_with(1, 256, 0)).unwrap_err();
    assert_eq!(error.category, ErrorCategory::Serialization);
}

#[test]
fn more_than_255_data_bytes_are_a_serialization_failure() {
    let error = serialize_message(&message_with(1, 0, 256)).unwrap_err();
    assert_eq!(error.category, ErrorCategory::Serialization);
}

#[test]
fn more_than_255_instructions_are_a_serialization_failure() {
    let mut message = message_with(1, 0, 0);
    message.instructions = (0..256)
        .map(|_| Instruction { program_id_index: 0, accounts: vec![], data: vec![] })
        .collect();
    let error = serialize_message(&message).unwrap_err();
    assert_eq!(error.category, ErrorCategory::Serialization);
    message.instructions.pop();
    assert!(serialize_message(&message).is_ok());
}

#[test]
fn valid_message_passes_validation() {
    assert!(small_message().validate().is_ok());
}

#[test]
fn index_outside_the_account_keys_is_a_validation_failure() {
    let mut message = small_message();
    message.instructions[0].accounts = vec![0, 2];
    assert_eq!(message.validate().unwrap_err().category, ErrorCategory::Validation);
    let mut message = small_message();
    message.instructions[1].program_id_index = 2;
    assert_eq!(message.validate().unwrap_err().category, ErrorCategory::Validation);
}

#[test]
fn counts_that_do_not_fit_the_keys_are_a_validation_failure() {
    let mut message = small_message();
    message.header.num_readonly_unsigned_accounts = 2;
    assert_eq!(message.validate().unwrap_err().category, ErrorCategory::Validation);
    let mut message = small_message();
    message.header.num_readonly_signed_accounts = 2;
    assert_eq!(message.validate().unwrap_err().category, ErrorCategory::Validation);
}

#[test]
fn header_splits_the_keys_into_four_regions() {
    let header = MessageHeader {
        num_required_signatures: 3,
        num_readonly_signed_accounts: 1,
        num_readonly_unsigned_accounts: 2,
    };
    assert!(header.fits(7));
    assert!(!header.fits(4));
    let roles: Vec<AccountRole> = (0..7).map(|i| header.role_of(7, i)).collect();
    assert_eq!(
        roles,
        vec![
            AccountRole::WritableSigner,
            AccountRole::WritableSigner,
            AccountRole::ReadonlySigner,
            AccountRole::WritableNonSigner,
            AccountRole::WritableNonSigner,
            AccountRole::ReadonlyNonSigner,
            AccountRole::ReadonlyNonSigner,
        ]
    );
}

#[test]
fn regions_say_who_signs_and_what_may_be_written() {
    assert!(AccountRole::WritableSigner.is_signer());
    assert!(AccountRole::ReadonlySigner.is_signer());
    assert!(!AccountRole::WritableNonSigner.is_signer());
    assert!(!AccountRole::ReadonlyNonSigner.is_signer());
    assert!(AccountRole::WritableSigner.is_writable());
    assert!(!AccountRole::ReadonlySigner.is_writable());
    assert!(AccountRole::WritableNonSigner.is_writable());
    assert!(!AccountRole::ReadonlyNonSigner.is_writable());
}

#[test]
fn regions_are_told_even_where_the_counts_do_not_fit() {
    let header = MessageHeader {
        num_required_signatures: 1,
        num_readonly_signed_accounts: 2,
        num_readonly_unsigned_accounts: 9,
    };
    assert!(!header.fits(3));
    assert_eq!(header.role_of(3, 0), AccountRole::ReadonlySigner);
    assert_eq!(header.role_of(3, 1), AccountRole::ReadonlyNonSigner);
}
