//! The transaction model: header, account keys, blockhash and instructions,
//! and the rules that make a message valid.

use vstd::prelude::*;
use crate::error::{failure, ErrorCategory, Failure, TransferError};
use crate::keys::{BlockHash, PublicKey, Signature};

verus! {

/// The three counts that split the account-key list into four regions.
#[derive(Clone, Copy, Debug, PartialEq, Eq, Structural)]
pub struct MessageHeader {
    pub num_required_signatures: u8,
    pub num_readonly_signed_accounts: u8,
    pub num_readonly_unsigned_accounts: u8,
}

/// The region of the account-key list that an account falls in.
#[derive(Clone, Copy, Debug, PartialEq, Eq, Structural)]
pub enum AccountRole {
    WritableSigner,
    ReadonlySigner,
    WritableNonSigner,
    ReadonlyNonSigner,
}

/// One call of an on-ledger program: the program and the accounts by their
/// place in the account-key list, and the payload handed to the program.
#[derive(Clone, Debug, PartialEq, Eq)]
pub struct Instruction {
    pub program_id_index: u8,
    pub accounts: Vec<u8>,
    pub data: Vec<u8>,
}

/// An instruction as a mathematical value.
pub struct InstructionView {
    pub program_id_index: u8,
    pub accounts: Seq<u8>,
    pub data: Seq<u8>,
}

/// The payload that gets signed: header, account keys, blockhash and
/// instructions.
#[derive(Clone, Debug, PartialEq, Eq)]
pub struct Message {
    pub header: MessageHeader,
    pub account_keys: Vec<PublicKey>,
    pub recent_blockhash: BlockHash,
    pub instructions: Vec<Instruction>,
}

/// A message as a mathematical value; each key and the blockhash stand as
/// their raw bytes.
pub struct MessageView {
    pub header: MessageHeader,
    pub account_keys: Seq<Seq<u8>>,
    pub recent_blockhash: Seq<u8>,
    pub instructions: Seq<InstructionView>,
}

/// A message that nobody has signed yet.
#[derive(Clone, Debug, PartialEq, Eq)]
pub struct UnsignedTransaction {
    pub message: Message,
}

/// A message with one slot for each signature that its header asks for, in
/// the order of the signers among the account keys. A slot is unset until
/// its signer has signed.
#[derive(Clone, Debug, PartialEq, Eq)]
pub struct SignedTransaction {
    pub signatures: Vec<Option<Signature>>,
    pub message: Message,
}

/// A signed transaction as a mathematical value.
pub struct SignedTransactionView {
    pub signatures: Seq<Option<Seq<u8>>>,
    pub message: MessageView,
}

/// The views of a list of signature slots, in order.
pub open spec fn slot_views(slots: Seq<Option<Signature>>) -> Seq<Option<Seq<u8>>> {
    Seq::new(
        slots.len(),
        |i: int|
            match slots[i] {
                Some(signature) => Some(signature@),
                None => None,
            },
    )
}

impl View for SignedTransaction {
    type V = SignedTransactionView;

    open spec fn view(&self) -> SignedTransactionView {
        SignedTransactionView {
            signatures: slot_views(self.signatures@),
            message: self.message@,
        }
    }
}

impl SignedTransactionView {
    /// There is one slot for each signature that the header asks for.
    pub open spec fn slots_match_header(self) -> bool {
        self.signatures.len() == self.message.header.num_required_signatures
    }

    /// There is one slot for each required signature, and every slot is
    /// set.
    pub open spec fn fully_signed(self) -> bool {
        &&& self.slots_match_header()
        &&& forall|i: int| 0 <= i < self.signatures.len() ==> (#[trigger] self.signatures[i]) is Some
    }
}

impl SignedTransaction {
    /// Whether there is one slot for each required signature and every
    /// slot is set.
    pub fn is_fully_signed(&self) -> (full: bool)
        ensures
            full == self@.fully_signed(),
    {
        if self.signatures.len() != self.message.header.num_required_signatures as usize {
            return false;
        }
        let mut i: usize = 0;
        while i < self.signatures.len()
            invariant
                i <= self.signatures.len(),
                forall|k: int| 0 <= k < i ==> (#[trigger] self@.signatures[k]) is Some,
            decreases self.signatures.len() - i,
        {
            if self.signatures[i].is_none() {
                assert(self@.signatures[i as int] is None);
                return false;
            }
            i += 1;
        }
        true
    }
}

impl View for Instruction {
    type V = InstructionView;

    open spec fn view(&self) -> InstructionView {
        InstructionView {
            program_id_index: self.program_id_index,
            accounts: self.accounts@,
            data: self.data@,
        }
    }
}

/// The views of a list of keys, in order.
pub open spec fn key_views(keys: Seq<PublicKey>) -> Seq<Seq<u8>> {
    Seq::new(keys.len(), |i: int| keys[i]@)
}

/// The views of a list of instructions, in order.
pub open spec fn instruction_views(instructions: Seq<Instruction>) -> Seq<InstructionView> {
    Seq::new(instructions.len(), |i: int| instructions[i]@)
}

impl View for Message {
    type V = MessageView;

    open spec fn view(&self) -> MessageView {
        MessageView {
            header: self.header,
            account_keys: key_views(self.account_keys@),
            recent_blockhash: self.recent_blockhash@,
            instructions: instruction_views(self.instructions@),
        }
    }
}

impl View for UnsignedTransaction {
    type V = MessageView;

    open spec fn view(&self) -> MessageView {
        self.message@
    }
}

impl AccountRole {
    /// Whether an account in this region signs the transaction.
    pub open spec fn signs(self) -> bool {
        self == AccountRole::WritableSigner || self == AccountRole::ReadonlySigner
    }

    /// Whether an account in this region may be written to.
    pub open spec fn writable(self) -> bool {
        self == AccountRole::WritableSigner || self == AccountRole::WritableNonSigner
    }

    /// The place of the region among the four.
    pub open spec fn rank(self) -> nat {
        match self {
            AccountRole::WritableSigner => 0,
            AccountRole::ReadonlySigner => 1,
            AccountRole::WritableNonSigner => 2,
            AccountRole::ReadonlyNonSigner => 3,
        }
    }

    /// Whether an account in this region signs the transaction.
    pub fn is_signer(&self) -> (signer: bool)
        ensures
            signer == self.signs(),
    {
        match self {
            AccountRole::WritableSigner => true,
            AccountRole::ReadonlySigner => true,
            AccountRole::WritableNonSigner => false,
            AccountRole::ReadonlyNonSigner => false,
        }
    }

    /// Whether an account in this region may be written to.
    pub fn is_writable(&self) -> (writable: bool)
        ensures
            writable == self.writable(),
    {
        match self {
            AccountRole::WritableSigner => true,
            AccountRole::ReadonlySigner => false,
            AccountRole::WritableNonSigner => true,
            AccountRole::ReadonlyNonSigner => false,
        }
    }
}

impl MessageHeader {
    /// The counts fit a list of `key_count` keys: the read-only signers are
    /// among the signers, and signers and read-only non-signers together are
    /// no more than the keys.
    pub open spec fn partitions(self, key_count: int) -> bool {
        &&& self.num_readonly_signed_accounts <= self.num_required_signatures
        &&& self.num_required_signatures + self.num_readonly_unsigned_accounts <= key_count
    }

    /// The region in which the account at `index` falls. The regions follow
    /// each other in the order writable signers, read-only signers, writable
    /// non-signers, read-only non-signers.
    pub open spec fn role_at(self, key_count: int, index: int) -> AccountRole {
        if index < self.num_required_signatures - self.num_readonly_signed_accounts {
            AccountRole::WritableSigner
        } else if index < self.num_required_signatures {
            AccountRole::ReadonlySigner
        } else if index < key_count - self.num_readonly_unsigned_accounts {
            AccountRole::WritableNonSigner
        } else {
            AccountRole::ReadonlyNonSigner
        }
    }

    /// Whether the counts fit a list of `key_count` keys.
    pub fn fits(&self, key_count: usize) -> (fitting: bool)
        ensures
            fitting == self.partitions(key_count as int),
    {
        let signers: usize = self.num_required_signatures as usize;
        let readonly_unsigned: usize = self.num_readonly_unsigned_accounts as usize;
        self.num_readonly_signed_accounts <= self.num_required_signatures && signers
            + readonly_unsigned <= key_count
    }

    /// The region in which the account at `index` falls.
    pub fn role_of(&self, key_count: usize, index: usize) -> (role: AccountRole)
        ensures
            role == self.role_at(key_count as int, index as int),
    {
        let signers: usize = self.num_required_signatures as usize;
        let readonly_signed: usize = self.num_readonly_signed_accounts as usize;
        let readonly_unsigned: usize = self.num_readonly_unsigned_accounts as usize;
        if readonly_signed <= signers && index < signers - readonly_signed {
            AccountRole::WritableSigner
        } else if index < signers {
            AccountRole::ReadonlySigner
        } else if readonly_unsigned <= key_count && index < key_count - readonly_unsigned {
            AccountRole::WritableNonSigner
        } else {
            AccountRole::ReadonlyNonSigner
        }
    }
}

/// Counts that fit the account keys split them into four regions that
/// follow each other in order: an account never falls in an earlier region
/// than an account before it. The signers are exactly the first
/// `num_required_signatures` accounts, and among signers and non-signers
/// alike the read-only accounts are the last ones.
pub proof fn lemma_header_splits_keys_in_order(
    header: MessageHeader,
    key_count: int,
    first: int,
    second: int,
)
    requires
        header.partitions(key_count),
        0 <= first <= second < key_count,
    ensures
        header.role_at(key_count, first).rank() <= header.role_at(key_count, second).rank(),
        header.role_at(key_count, first).signs() <==> first < header.num_required_signatures,
        header.role_at(key_count, first).writable() <==> (first < header.num_required_signatures
            - header.num_readonly_signed_accounts || header.num_required_signatures <= first
            < key_count - header.num_readonly_unsigned_accounts),
{
}

impl InstructionView {
    /// The program index and every account index point into a list of
    /// `key_count` keys.
    pub open spec fn within(self, key_count: int) -> bool {
        &&& self.program_id_index < key_count
        &&& forall|j: int| 0 <= j < self.accounts.len() ==> (#[trigger] self.accounts[j]) < key_count
    }
}

impl Instruction {
    /// Whether the program index and every account index point into a list
    /// of `key_count` keys.
    pub fn points_within(&self, key_count: usize) -> (inside: bool)
        ensures
            inside == self@.within(key_count as int),
    {
        if self.program_id_index as usize >= key_count {
            return false;
        }
        let mut j: usize = 0;
        while j < self.accounts.len()
            invariant
                j <= self.accounts.len(),
                forall|k: int| 0 <= k < j ==> (#[trigger] self.accounts@[k]) < key_count,
            decreases self.accounts.len() - j,
        {
            if self.accounts[j] as usize >= key_count {
                assert(self@.accounts[j as int] >= key_count);
                return false;
            }
            j += 1;
        }
        true
    }
}

/// The header's counts fit a list of `key_count` keys, and every index in
/// every instruction points into that list.
pub open spec fn accounts_consistent(
    header: MessageHeader,
    key_count: int,
    instructions: Seq<InstructionView>,
) -> bool {
    &&& header.partitions(key_count)
    &&& forall|i: int|
        0 <= i < instructions.len() ==> (#[trigger] instructions[i]).within(key_count)
}

/// The message of the failure of counts that do not fit the account keys.
pub open spec fn misfit_counts_message() -> Seq<char> {
    "the header's counts do not fit the account keys"@
}

/// The message of the failure of an instruction that points outside the
/// account keys.
pub open spec fn outside_index_message() -> Seq<char> {
    "an instruction points outside the account keys"@
}

/// The failure of a header and instructions that are not consistent with
/// the number of account keys: that of the counts where they do not fit,
/// that of the instructions otherwise.
pub open spec fn accounts_failure(header: MessageHeader, key_count: int) -> Failure {
    if !header.partitions(key_count) {
        failure(ErrorCategory::Validation, misfit_counts_message())
    } else {
        failure(ErrorCategory::Validation, outside_index_message())
    }
}

/// Checks a header and a list of instructions against the number of
/// account keys: `Ok` exactly where they are consistent with it, a
/// validation failure otherwise.
pub fn check_accounts(
    header: &MessageHeader,
    key_count: usize,
    instructions: &Vec<Instruction>,
) -> (outcome: Result<(), TransferError>)
    ensures
        accounts_consistent(*header, key_count as int, instruction_views(instructions@))
            ==> outcome is Ok,
        !accounts_consistent(*header, key_count as int, instruction_views(instructions@))
            ==> outcome is Err && outcome->Err_0@ == accounts_failure(*header, key_count as int),
{
    if !header.fits(key_count) {
        return Err(
            TransferError::new(
                ErrorCategory::Validation,
                "the header's counts do not fit the account keys",
            ),
        );
    }
    let ghost views = instruction_views(instructions@);
    let mut i: usize = 0;
    while i < instructions.len()
        invariant
            i <= instructions.len(),
            header.partitions(key_count as int),
            views == instruction_views(instructions@),
            forall|k: int| 0 <= k < i ==> (#[trigger] views[k]).within(key_count as int),
        decreases instructions.len() - i,
    {
        if !instructions[i].points_within(key_count) {
            assert(!views[i as int].within(key_count as int));
            return Err(
                TransferError::new(
                    ErrorCategory::Validation,
                    "an instruction points outside the account keys",
                ),
            );
        }
        i += 1;
    }
    Ok(())
}

impl MessageView {
    /// The header's counts fit the account-key list, and every index in
    /// every instruction points into that list.
    pub open spec fn valid(self) -> bool {
        accounts_consistent(self.header, self.account_keys.len() as int, self.instructions)
    }
}

impl Message {
    /// Checks the message: `Ok` exactly where it is valid, a validation
    /// failure otherwise.
    pub fn validate(&self) -> (outcome: Result<(), TransferError>)
        ensures
            self@.valid() ==> outcome is Ok,
            !self@.valid() ==> outcome is Err && outcome->Err_0@ == accounts_failure(
                self.header,
                self@.account_keys.len() as int,
            ),
    {
        check_accounts(&self.header, self.account_keys.len(), &self.instructions)
    }
}

} // verus!
