//! The transaction builder: account keys, header counts and instructions
//! are checked, and joined with a fresh blockhash into a transaction.

use vstd::prelude::*;
use crate::error::{failure, ErrorCategory, Failure, TransferError};
use crate::rpc::{
    blockhash_pointer, differing_message, lemma_disagreement_fails, missing_blockhash_message,
    reply_body, ProviderOutcome, RpcClientConfig,
};
use crate::keys::{key_bytes_of_text, key_text_failure, BlockHash, PublicKey};
use crate::transaction::{
    accounts_consistent, accounts_failure, check_accounts, instruction_views, key_views,
    Instruction, InstructionView, Message, MessageHeader, MessageView, UnsignedTransaction,
};

verus! {

/// A transaction that still lacks its blockhash.
#[derive(Clone, Debug, PartialEq, Eq)]
pub struct TransactionDraft {
    pub account_keys: Vec<PublicKey>,
    pub header: MessageHeader,
    pub instructions: Vec<Instruction>,
}

/// A draft as a mathematical value; each key stands as its raw bytes.
pub struct TransactionDraftView {
    pub account_keys: Seq<Seq<u8>>,
    pub header: MessageHeader,
    pub instructions: Seq<InstructionView>,
}

impl View for TransactionDraft {
    type V = TransactionDraftView;

    open spec fn view(&self) -> TransactionDraftView {
        TransactionDraftView {
            account_keys: key_views(self.account_keys@),
            header: self.header,
            instructions: instruction_views(self.instructions@),
        }
    }
}

impl TransactionDraftView {
    /// The header's counts fit the account-key list, and every index in
    /// every instruction points into that list.
    pub open spec fn valid(self) -> bool {
        accounts_consistent(self.header, self.account_keys.len() as int, self.instructions)
    }

    /// The message that the draft makes with the given blockhash.
    pub open spec fn with_blockhash(self, recent_blockhash: Seq<u8>) -> MessageView {
        MessageView {
            header: self.header,
            account_keys: self.account_keys,
            recent_blockhash,
            instructions: self.instructions,
        }
    }
}

/// Every text stands for a 32-byte key.
pub open spec fn all_keys_readable(texts: Seq<String>) -> bool {
    forall|i: int| 0 <= i < texts.len() ==> key_bytes_of_text((#[trigger] texts[i])@) is Some
}

/// The text at `index` is the first that stands for no key.
pub open spec fn is_first_unreadable(texts: Seq<String>, index: int) -> bool {
    &&& 0 <= index < texts.len()
    &&& key_bytes_of_text(texts[index]@) is None
    &&& forall|k: int| 0 <= k < index ==> key_bytes_of_text((#[trigger] texts[k])@) is Some
}

/// The failure to read a list of keys of which some text stands for none:
/// that of the first such text.
pub open spec fn keys_failure(texts: Seq<String>) -> Failure {
    key_text_failure(texts[choose|index: int| is_first_unreadable(texts, index)]@)
}

/// The raw bytes of the keys that the texts stand for, in order.
pub open spec fn keys_read(texts: Seq<String>) -> Seq<Seq<u8>> {
    Seq::new(texts.len(), |i: int| key_bytes_of_text(texts[i]@)->Some_0)
}

/// Reads a list of account keys from their base-58 texts: all of them, in
/// order, or the validation failure of the first of them that is not the
/// text of a 32-byte key.
pub fn parse_account_keys(texts: &Vec<String>) -> (outcome: Result<Vec<PublicKey>, TransferError>)
    ensures
        all_keys_readable(texts@) ==> outcome is Ok && key_views(outcome->Ok_0@) == keys_read(
            texts@,
        ),
        !all_keys_readable(texts@) ==> outcome is Err && outcome->Err_0@ == keys_failure(texts@),
{
    let mut keys: Vec<PublicKey> = Vec::new();
    let mut i: usize = 0;
    while i < texts.len()
        invariant
            i <= texts.len(),
            keys@.len() == i,
            forall|k: int| 0 <= k < i ==> key_bytes_of_text((#[trigger] texts@[k])@) is Some,
            forall|k: int|
                0 <= k < i ==> (#[trigger] keys@[k])@ == key_bytes_of_text(texts@[k]@)->Some_0,
        decreases texts.len() - i,
    {
        match PublicKey::from_base58(texts[i].as_str()) {
            Ok(key) => {
                keys.push(key);
            },
            Err(error) => {
                proof {
                    let found = choose|index: int| is_first_unreadable(texts@, index);
                    assert(is_first_unreadable(texts@, i as int));
                    assert(found == i);
                }
                return Err(error);
            },
        }
        i += 1;
    }
    Ok(keys)
}

/// The message of the failure to read a blockhash from a text that is not
/// one.
pub open spec fn malformed_blockhash_message() -> Seq<char> {
    "the blockhash is not the base-58 text of 32 bytes"@
}

/// Reads the blockhash that a provider reported, from its base-58 text. A
/// text that does not stand for exactly 32 bytes, the empty text among
/// them, is a malformed response.
pub fn read_blockhash(text: &str) -> (outcome: Result<BlockHash, TransferError>)
    ensures
        match key_bytes_of_text(text@) {
            Some(bytes) => outcome is Ok && outcome->Ok_0@ == bytes,
            None => outcome is Err && outcome->Err_0@ == failure(
                ErrorCategory::Rpc,
                malformed_blockhash_message(),
            ),
        },
{
    match BlockHash::from_base58(text) {
        Ok(hash) => Ok(hash),
        Err(_) => Err(
            TransferError::new(
                ErrorCategory::Rpc,
                "the blockhash is not the base-58 text of 32 bytes",
            ),
        ),
    }
}

impl TransactionDraft {
    /// Checks the draft: `Ok` exactly where it is valid, a validation
    /// failure otherwise.
    pub fn validate(&self) -> (outcome: Result<(), TransferError>)
        ensures
            self@.valid() ==> outcome is Ok,
            !self@.valid() ==> outcome is Err && outcome->Err_0@ == accounts_failure(
                self.header,
                self@.account_keys.len() as int,
            ),
    {
        check_accounts(&self.header, self.account_keys.len(), &self.instructions)
    }

    /// Joins the draft with a blockhash into a transaction.
    pub fn with_blockhash(self, recent_blockhash: BlockHash) -> (transaction: UnsignedTransaction)
        ensures
            transaction@ == self@.with_blockhash(recent_blockhash@),
    {
        UnsignedTransaction {
            message: Message {
                header: self.header,
                account_keys: self.account_keys,
                recent_blockhash,
                instructions: self.instructions,
            },
        }
    }
}

/// What [`create_unsigned_transaction`] makes of its arguments once every
/// text is known to be readable.
pub open spec fn transaction_built(
    account_keys: Seq<String>,
    header: MessageHeader,
    instructions: Seq<Instruction>,
    recent_blockhash: Seq<char>,
) -> MessageView {
    MessageView {
        header,
        account_keys: keys_read(account_keys),
        recent_blockhash: key_bytes_of_text(recent_blockhash)->Some_0,
        instructions: instruction_views(instructions),
    }
}

/// What the fetch of a blockhash gave, as a mathematical value.
pub open spec fn fetch_view(fetched: Result<String, TransferError>) -> Result<Seq<char>, Failure> {
    match fetched {
        Ok(text) => Ok(text@),
        Err(error) => Err(error@),
    }
}

/// `outcome` is what the builder makes of its arguments and of what the
/// fetch of the latest blockhash gave.
///
/// A failed fetch fails the builder with the same category and message,
/// and nothing is built. Otherwise the arguments are checked in this
/// order, and the first failure is returned, with its message: an account
/// key that is not the text of a 32-byte key (validation); counts that do
/// not fit the keys, or an instruction that points outside them
/// (validation); a blockhash that is not the text of 32 bytes, the empty
/// text among them (a malformed response).
pub open spec fn builds(
    account_keys: Seq<String>,
    header: MessageHeader,
    instructions: Seq<Instruction>,
    fetched: Result<Seq<char>, Failure>,
    outcome: Result<UnsignedTransaction, TransferError>,
) -> bool {
    match fetched {
        Err(failed) => outcome is Err && outcome->Err_0@ == failed,
        Ok(recent_blockhash) => {
            let consistent = accounts_consistent(
                header,
                account_keys.len() as int,
                instruction_views(instructions),
            );
            if !all_keys_readable(account_keys) {
                outcome is Err && outcome->Err_0@ == keys_failure(account_keys)
            } else if !consistent {
                outcome is Err && outcome->Err_0@ == accounts_failure(
                    header,
                    account_keys.len() as int,
                )
            } else if key_bytes_of_text(recent_blockhash) is None {
                outcome is Err && outcome->Err_0@ == failure(
                    ErrorCategory::Rpc,
                    malformed_blockhash_message(),
                )
            } else {
                outcome is Ok && outcome->Ok_0@ == transaction_built(
                    account_keys,
                    header,
                    instructions,
                    recent_blockhash,
                )
            }
        },
    }
}

/// Builds an unsigned transaction from account keys in base-58 text, the
/// header's three counts, the instructions, and what the fetch of the
/// latest blockhash gave: the blockhash in base-58 text as a provider
/// reported it, or the failure of the fetch. See [`builds`].
pub fn create_unsigned_transaction(
    account_keys: &Vec<String>,
    num_required_signatures: u8,
    num_readonly_signed_accounts: u8,
    num_readonly_unsigned_accounts: u8,
    instructions: Vec<Instruction>,
    fetched: Result<String, TransferError>,
) -> (outcome: Result<UnsignedTransaction, TransferError>)
    ensures
        builds(
            account_keys@,
            MessageHeader {
                num_required_signatures,
                num_readonly_signed_accounts,
                num_readonly_unsigned_accounts,
            },
            instructions@,
            fetch_view(fetched),
            outcome,
        ),
        fetched is Err ==> outcome == Err::<UnsignedTransaction, TransferError>(fetched->Err_0),
{
    let recent_blockhash = match fetched {
        Ok(text) => text,
        Err(error) => {
            return Err(error);
        },
    };
    let keys = match parse_account_keys(account_keys) {
        Ok(keys) => keys,
        Err(error) => {
            return Err(error);
        },
    };
    let draft = TransactionDraft {
        account_keys: keys,
        header: MessageHeader {
            num_required_signatures,
            num_readonly_signed_accounts,
            num_readonly_unsigned_accounts,
        },
        instructions,
    };
    match draft.validate() {
        Ok(()) => {},
        Err(error) => {
            return Err(error);
        },
    }
    match read_blockhash(recent_blockhash.as_str()) {
        Ok(hash) => Ok(draft.with_blockhash(hash)),
        Err(error) => Err(error),
    }
}

/// Builds an unsigned transaction from account keys in base-58 text, the
/// header's three counts, the instructions, and the providers' replies to
/// the request for the latest blockhash. The replies are reconciled and
/// the blockhash is read from them; where that fails, the builder fails
/// with the same category and message, and nothing is built.
pub fn build_unsigned_transaction(
    config: &RpcClientConfig,
    account_keys: &Vec<String>,
    num_required_signatures: u8,
    num_readonly_signed_accounts: u8,
    num_readonly_unsigned_accounts: u8,
    instructions: Vec<Instruction>,
    replies: &Vec<ProviderOutcome>,
) -> (outcome: Result<UnsignedTransaction, TransferError>)
    ensures
        builds(
            account_keys@,
            MessageHeader {
                num_required_signatures,
                num_readonly_signed_accounts,
                num_readonly_unsigned_accounts,
            },
            instructions@,
            config.blockhash_outcome(replies@),
            outcome,
        ),
{
    create_unsigned_transaction(
        account_keys,
        num_required_signatures,
        num_readonly_signed_accounts,
        num_readonly_unsigned_accounts,
        instructions,
        config.get_latest_blockhash(replies),
    )
}

/// Where the blockhash cannot be fetched, the builder fails with the
/// category and the message of the fetch's failure, and no transaction is
/// made, so no blockhash is ever set.
pub proof fn lemma_builder_fails_as_the_fetch(
    account_keys: Seq<String>,
    header: MessageHeader,
    instructions: Seq<Instruction>,
    fetched: Result<Seq<char>, Failure>,
    outcome: Result<UnsignedTransaction, TransferError>,
)
    requires
        builds(account_keys, header, instructions, fetched, outcome),
        fetched is Err,
    ensures
        outcome is Err,
        outcome->Err_0@ == fetched->Err_0,
{
}

/// With two providers that both reply to the request for the latest
/// blockhash, but not with the same bytes, the builder fails as a consensus
/// failure, and no transaction is made.
pub proof fn lemma_builder_aborts_on_disagreement(
    config: RpcClientConfig,
    replies: Seq<ProviderOutcome>,
    account_keys: Seq<String>,
    header: MessageHeader,
    instructions: Seq<Instruction>,
    outcome: Result<UnsignedTransaction, TransferError>,
)
    requires
        config.providers@.len() == 2,
        replies.len() == 2,
        replies[0] is Response,
        replies[1] is Response,
        reply_body(replies[0]) != reply_body(replies[1]),
        builds(account_keys, header, instructions, config.blockhash_outcome(replies), outcome),
    ensures
        outcome is Err,
        outcome->Err_0@ == failure(ErrorCategory::Consensus, differing_message()),
{
    lemma_disagreement_fails(config, replies, blockhash_pointer(), missing_blockhash_message());
}

} // verus!
