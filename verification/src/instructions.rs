//! Factories for the well-known instructions: the native transfer, and the
//! call of a program's fixed entry point.

use vstd::prelude::*;
use crate::builder::{TransactionDraft, TransactionDraftView};
use crate::keys::PublicKey;
use crate::transaction::{AccountRole, Instruction, InstructionView, MessageHeader};

verus! {

broadcast use PublicKey::lemma_length;

/// The tag of the transfer instruction of the native system program.
pub const TRANSFER_TAG: u32 = 2;

/// A number in `width` bytes, least significant first.
pub open spec fn little_endian(value: nat, width: nat) -> Seq<u8>
    decreases width,
{
    if width == 0 {
        Seq::empty()
    } else {
        seq![(value % 256) as u8] + little_endian(value / 256, (width - 1) as nat)
    }
}

/// The payload of a transfer: the tag in four bytes, then the amount in
/// eight, both least significant byte first.
pub open spec fn transfer_data(amount: u64) -> Seq<u8> {
    little_endian(TRANSFER_TAG as nat, 4) + little_endian(amount as nat, 8)
}

/// The key of the native system program: 32 zero bytes.
pub open spec fn system_program_key() -> Seq<u8> {
    Seq::new(32, |i: int| 0u8)
}

/// The payload that selects the fixed entry point of a program.
pub open spec fn initialize_discriminator() -> Seq<u8> {
    seq![175u8, 175u8, 109u8, 31u8, 13u8, 152u8, 155u8, 237u8]
}

/// A transfer of `amount` units from `from` to `to`. The account keys are
/// `from`, `to` and the system program, in this order; `from` signs and
/// pays, `to` is written to, the program is only read. The single
/// instruction calls the system program on the first two accounts.
pub open spec fn transfer_draft(from: Seq<u8>, to: Seq<u8>, amount: u64) -> TransactionDraftView {
    TransactionDraftView {
        account_keys: seq![from, to, system_program_key()],
        header: MessageHeader {
            num_required_signatures: 1,
            num_readonly_signed_accounts: 0,
            num_readonly_unsigned_accounts: 1,
        },
        instructions: seq![
            InstructionView {
                program_id_index: 2,
                accounts: seq![0u8, 1u8],
                data: transfer_data(amount),
            },
        ],
    }
}

/// A call of the fixed entry point of `program_id` on behalf of `from`.
/// The account keys are `from` and the program, in this order; `from`
/// signs and is written to, the program is only read. The single
/// instruction calls the program on `from`, with the discriminator as its
/// whole payload.
pub open spec fn fixed_call_draft(program_id: Seq<u8>, from: Seq<u8>) -> TransactionDraftView {
    TransactionDraftView {
        account_keys: seq![from, program_id],
        header: MessageHeader {
            num_required_signatures: 1,
            num_readonly_signed_accounts: 0,
            num_readonly_unsigned_accounts: 1,
        },
        instructions: seq![
            InstructionView {
                program_id_index: 1,
                accounts: seq![0u8],
                data: initialize_discriminator(),
            },
        ],
    }
}

/// Appends `value` to `out` in `width` bytes, least significant first.
fn write_little_endian(out: &mut Vec<u8>, value: u64, width: usize)
    ensures
        final(out)@ == old(out)@ + little_endian(value as nat, width as nat),
{
    let mut rest: u64 = value;
    let mut written: usize = 0;
    while written < width
        invariant
            written <= width,
            out@ + little_endian(rest as nat, (width - written) as nat) == old(out)@
                + little_endian(value as nat, width as nat),
        decreases width - written,
    {
        out.push((rest % 256) as u8);
        rest = rest / 256;
        written += 1;
    }
}

/// The key of the native system program.
pub fn system_program() -> (key: PublicKey)
    ensures
        key@ == system_program_key(),
{
    let key = PublicKey::new([0u8; 32]);
    key
}

/// The payload of a transfer of `amount` units.
pub fn transfer_instruction_data(amount: u64) -> (data: Vec<u8>)
    ensures
        data@ == transfer_data(amount),
{
    let mut data: Vec<u8> = Vec::new();
    write_little_endian(&mut data, TRANSFER_TAG as u64, 4);
    write_little_endian(&mut data, amount, 8);
    data
}

/// Builds the transfer of `amount` units from `from` to `to`.
pub fn transfer(from: &PublicKey, to: &PublicKey, amount: u64) -> (draft: TransactionDraft)
    ensures
        draft@ == transfer_draft(from@, to@, amount),
        draft@.valid(),
        draft@.header.role_at(3, 0) == AccountRole::WritableSigner,
        draft@.header.role_at(3, 1) == AccountRole::WritableNonSigner,
        draft@.header.role_at(3, 2) == AccountRole::ReadonlyNonSigner,
{
    let mut account_keys: Vec<PublicKey> = Vec::new();
    account_keys.push(*from);
    account_keys.push(*to);
    account_keys.push(system_program());
    let mut accounts: Vec<u8> = Vec::new();
    accounts.push(0);
    accounts.push(1);
    let mut instructions: Vec<Instruction> = Vec::new();
    instructions.push(
        Instruction { program_id_index: 2, accounts, data: transfer_instruction_data(amount) },
    );
    let draft = TransactionDraft {
        account_keys,
        header: MessageHeader {
            num_required_signatures: 1,
            num_readonly_signed_accounts: 0,
            num_readonly_unsigned_accounts: 1,
        },
        instructions,
    };
    proof {
        let expected = transfer_draft(from@, to@, amount);
        assert(draft@.account_keys =~= expected.account_keys);
        assert(draft@.instructions[0].accounts =~= expected.instructions[0].accounts);
        assert(draft@.instructions =~= expected.instructions);
    }
    draft
}

/// The payload of the one instruction that this library sends to a
/// program of its counterparty: the discriminator of the program's fixed
/// entry point.
#[derive(Clone, Copy, Debug, PartialEq, Eq)]
pub struct InitializeInstruction {
    discriminator: [u8; 8],
}

impl InitializeInstruction {
    /// The payload with the fixed discriminator.
    pub fn new() -> (instruction: InitializeInstruction)
        ensures
            instruction.data_bytes() == initialize_discriminator(),
    {
        let instruction = InitializeInstruction {
            discriminator: [175, 175, 109, 31, 13, 152, 155, 237],
        };
        instruction
    }

    /// The bytes of the payload.
    pub closed spec fn data_bytes(self) -> Seq<u8> {
        self.discriminator@
    }

    /// The payload as the data of an instruction.
    pub fn data(&self) -> (data: Vec<u8>)
        ensures
            data@ == self.data_bytes(),
    {
        vstd::slice::slice_to_vec(self.discriminator.as_slice())
    }
}

/// Builds the call of the fixed entry point of `program_id` on behalf of
/// `from`.
pub fn fixed_discriminator_call(program_id: &PublicKey, from: &PublicKey) -> (draft:
    TransactionDraft)
    ensures
        draft@ == fixed_call_draft(program_id@, from@),
        draft@.valid(),
        draft@.header.role_at(2, 0) == AccountRole::WritableSigner,
        draft@.header.role_at(2, 1) == AccountRole::ReadonlyNonSigner,
{
    let mut account_keys: Vec<PublicKey> = Vec::new();
    account_keys.push(*from);
    account_keys.push(*program_id);
    let mut accounts: Vec<u8> = Vec::new();
    accounts.push(0);
    let mut instructions: Vec<Instruction> = Vec::new();
    instructions.push(
        Instruction { program_id_index: 1, accounts, data: InitializeInstruction::new().data() },
    );
    let draft = TransactionDraft {
        account_keys,
        header: MessageHeader {
            num_required_signatures: 1,
            num_readonly_signed_accounts: 0,
            num_readonly_unsigned_accounts: 1,
        },
        instructions,
    };
    proof {
        let expected = fixed_call_draft(program_id@, from@);
        assert(draft@.account_keys =~= expected.account_keys);
        assert(draft@.instructions =~= expected.instructions);
    }
    draft
}

} // verus!
