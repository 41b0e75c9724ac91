//! The binary layout of a message, byte for byte, and its inverse.
//!
//! Every list is written behind a single length byte. The ledger's own
//! format writes lengths as a variable-length integer, which agrees with a
//! single byte only below 128: see [`lemma_length_byte_agrees_below_128`].

use vstd::prelude::*;
use vstd::slice::slice_subrange;
use crate::error::{failure, ErrorCategory, Failure, TransferError};
use crate::keys::{BlockHash, PublicKey, Signature, KEY_LENGTH, SIGNATURE_LENGTH};
use crate::transaction::{
    instruction_views, key_views, Instruction, InstructionView, Message, MessageHeader,
    MessageView, SignedTransaction, SignedTransactionView, UnsignedTransaction,
};

verus! {

broadcast use {PublicKey::lemma_length, BlockHash::lemma_length, Signature::lemma_length};

/// The longest list that a single length byte can announce.
pub const MAX_LIST_LENGTH: usize = 255;

/// The longest list whose length byte reads the same in the ledger's own
/// variable-length format.
pub const MAX_LEDGER_LIST_LENGTH: usize = 127;

impl InstructionView {
    /// Both lists are short enough for a single length byte.
    pub open spec fn lengths_fit(self) -> bool {
        self.accounts.len() <= MAX_LIST_LENGTH && self.data.len() <= MAX_LIST_LENGTH
    }

    /// Both lists are short enough for their length bytes to read the same
    /// in the ledger's own format.
    pub open spec fn ledger_compatible(self) -> bool {
        self.accounts.len() <= MAX_LEDGER_LIST_LENGTH && self.data.len()
            <= MAX_LEDGER_LIST_LENGTH
    }
}

impl MessageView {
    /// Every key and the blockhash hold 32 bytes. This holds of the view of
    /// every [`Message`].
    pub open spec fn well_formed(self) -> bool {
        &&& self.recent_blockhash.len() == KEY_LENGTH
        &&& forall|i: int|
            0 <= i < self.account_keys.len() ==> (#[trigger] self.account_keys[i]).len()
                == KEY_LENGTH
    }

    /// Every list is short enough for a single length byte.
    pub open spec fn lengths_fit(self) -> bool {
        &&& self.account_keys.len() <= MAX_LIST_LENGTH
        &&& self.instructions.len() <= MAX_LIST_LENGTH
        &&& forall|i: int|
            0 <= i < self.instructions.len() ==> (#[trigger] self.instructions[i]).lengths_fit()
    }

    /// The message can be written: it is well formed and its lengths fit.
    pub open spec fn encodable(self) -> bool {
        self.well_formed() && self.lengths_fit()
    }

    /// Every list is short enough for the written bytes to read the same in
    /// the ledger's own format.
    pub open spec fn ledger_compatible(self) -> bool {
        &&& self.account_keys.len() <= MAX_LEDGER_LIST_LENGTH
        &&& self.instructions.len() <= MAX_LEDGER_LIST_LENGTH
        &&& forall|i: int|
            0 <= i < self.instructions.len() ==> (
            #[trigger] self.instructions[i]).ledger_compatible()
    }
}

/// The three header bytes.
pub open spec fn encode_header(header: MessageHeader) -> Seq<u8> {
    seq![
        header.num_required_signatures,
        header.num_readonly_signed_accounts,
        header.num_readonly_unsigned_accounts,
    ]
}

/// The account-key section: the number of keys in one byte, then the keys'
/// raw bytes in list order.
pub open spec fn encode_account_keys(keys: Seq<Seq<u8>>) -> Seq<u8> {
    seq![keys.len() as u8] + keys.flatten()
}

/// One instruction: the program index, then each list behind its length
/// byte.
pub open spec fn encode_instruction(instruction: InstructionView) -> Seq<u8> {
    seq![instruction.program_id_index, instruction.accounts.len() as u8] + instruction.accounts
        + seq![instruction.data.len() as u8] + instruction.data
}

/// The encodings of the instructions, one after the other.
pub open spec fn encode_each_instruction(instructions: Seq<InstructionView>) -> Seq<u8> {
    Seq::new(instructions.len(), |i: int| encode_instruction(instructions[i])).flatten()
}

/// The instruction section: the number of instructions in one byte, then
/// the instructions.
pub open spec fn encode_instructions(instructions: Seq<InstructionView>) -> Seq<u8> {
    seq![instructions.len() as u8] + encode_each_instruction(instructions)
}

/// The bytes of a message: header, account keys, blockhash, instructions,
/// with nothing between or after them.
pub open spec fn encode_message(message: MessageView) -> Seq<u8> {
    encode_header(message.header) + encode_account_keys(message.account_keys)
        + message.recent_blockhash + encode_instructions(message.instructions)
}

/// Appends `bytes` to `out`.
fn append_bytes(out: &mut Vec<u8>, bytes: &[u8])
    ensures
        final(out)@ == old(out)@ + bytes@,
{
    let mut i: usize = 0;
    while i < bytes.len()
        invariant
            i <= bytes.len(),
            out@ == old(out)@ + bytes@.subrange(0, i as int),
        decreases bytes.len() - i,
    {
        out.push(bytes[i]);
        i += 1;
        assert(out@ =~= old(out)@ + bytes@.subrange(0, i as int));
    }
    assert(bytes@.subrange(0, bytes@.len() as int) =~= bytes@);
}

impl Message {
    /// The view of a message is always well formed.
    pub proof fn lemma_view_well_formed(&self)
        ensures
            self@.well_formed(),
    {
    }

    /// Whether every list of the message is short enough for a single
    /// length byte.
    pub fn lengths_fit(&self) -> (fitting: bool)
        ensures
            fitting == self@.lengths_fit(),
    {
        if self.account_keys.len() > MAX_LIST_LENGTH || self.instructions.len() > MAX_LIST_LENGTH {
            return false;
        }
        let mut i: usize = 0;
        while i < self.instructions.len()
            invariant
                i <= self.instructions.len(),
                forall|k: int| 0 <= k < i ==> (#[trigger] self@.instructions[k]).lengths_fit(),
            decreases self.instructions.len() - i,
        {
            let instruction = &self.instructions[i];
            if instruction.accounts.len() > MAX_LIST_LENGTH || instruction.data.len()
                > MAX_LIST_LENGTH {
                assert(!self@.instructions[i as int].lengths_fit());
                return false;
            }
            i += 1;
        }
        true
    }

    /// Whether every list of the message is short enough for the written
    /// bytes to read the same in the ledger's own format.
    pub fn is_ledger_compatible(&self) -> (compatible: bool)
        ensures
            compatible == self@.ledger_compatible(),
    {
        if self.account_keys.len() > MAX_LEDGER_LIST_LENGTH || self.instructions.len()
            > MAX_LEDGER_LIST_LENGTH {
            return false;
        }
        let mut i: usize = 0;
        while i < self.instructions.len()
            invariant
                i <= self.instructions.len(),
                forall|k: int| 0 <= k < i ==> (#[trigger] self@.instructions[k]).ledger_compatible(),
            decreases self.instructions.len() - i,
        {
            let instruction = &self.instructions[i];
            if instruction.accounts.len() > MAX_LEDGER_LIST_LENGTH || instruction.data.len()
                > MAX_LEDGER_LIST_LENGTH {
                assert(!self@.instructions[i as int].ledger_compatible());
                return false;
            }
            i += 1;
        }
        true
    }
}

/// Writes one instruction behind what `out` already holds.
fn write_instruction(out: &mut Vec<u8>, instruction: &Instruction)
    requires
        instruction@.lengths_fit(),
    ensures
        final(out)@ == old(out)@ + encode_instruction(instruction@),
{
    out.push(instruction.program_id_index);
    out.push(instruction.accounts.len() as u8);
    append_bytes(out, instruction.accounts.as_slice());
    out.push(instruction.data.len() as u8);
    append_bytes(out, instruction.data.as_slice());
    assert(out@ =~= old(out)@ + encode_instruction(instruction@));
}

/// The message of the failure to write a list that is too long.
pub open spec fn overlong_list_message() -> Seq<char> {
    "a list is too long for its one-byte length"@
}

/// The message of the failure to write more signature slots than a length
/// byte can announce.
pub open spec fn overlong_slots_message() -> Seq<char> {
    "there are too many signature slots for a one-byte length"@
}

/// Writes a message in the binary layout. The bytes are the header's three
/// counts, the account-key section, the blockhash and the instruction
/// section. A message with a list of more than 255 entries is not written.
pub fn serialize_message(message: &Message) -> (outcome: Result<Vec<u8>, TransferError>)
    ensures
        message@.lengths_fit() ==> outcome is Ok && outcome->Ok_0@ == encode_message(message@),
        !message@.lengths_fit() ==> outcome is Err && outcome->Err_0@ == failure(
            ErrorCategory::Serialization,
            overlong_list_message(),
        ),
        outcome is Ok ==> decode_message(outcome->Ok_0@) == Some(message@),
{
    if !message.lengths_fit() {
        return Err(
            TransferError::new(
                ErrorCategory::Serialization,
                "a list is too long for its one-byte length",
            ),
        );
    }
    let mut out: Vec<u8> = Vec::new();
    out.push(message.header.num_required_signatures);
    out.push(message.header.num_readonly_signed_accounts);
    out.push(message.header.num_readonly_unsigned_accounts);
    out.push(message.account_keys.len() as u8);
    let ghost keys = message@.account_keys;
    let ghost head = encode_header(message.header) + seq![keys.len() as u8];
    assert(out@ =~= head);
    let mut i: usize = 0;
    while i < message.account_keys.len()
        invariant
            i <= message.account_keys.len(),
            keys == message@.account_keys,
            out@ == head + keys.take(i as int).flatten(),
        decreases message.account_keys.len() - i,
    {
        let key = message.account_keys[i].to_bytes();
        append_bytes(&mut out, key.as_slice());
        proof {
            assert(keys.take(i + 1) =~= keys.take(i as int).push(keys[i as int]));
            keys.take(i as int).lemma_flatten_push(keys[i as int]);
            assert(out@ =~= head + keys.take(i + 1).flatten());
        }
        i += 1;
    }
    assert(keys.take(keys.len() as int) =~= keys);
    let blockhash = message.recent_blockhash.to_bytes();
    append_bytes(&mut out, blockhash.as_slice());
    out.push(message.instructions.len() as u8);
    let ghost instructions = message@.instructions;
    let ghost parts = Seq::new(instructions.len(), |k: int| encode_instruction(instructions[k]));
    let ghost front = encode_header(message.header) + encode_account_keys(keys)
        + message@.recent_blockhash + seq![instructions.len() as u8];
    assert(out@ =~= front);
    let mut j: usize = 0;
    while j < message.instructions.len()
        invariant
            j <= message.instructions.len(),
            instructions == message@.instructions,
            message@.lengths_fit(),
            parts == Seq::new(instructions.len(), |k: int| encode_instruction(instructions[k])),
            out@ == front + parts.take(j as int).flatten(),
        decreases message.instructions.len() - j,
    {
        assert(instructions[j as int].lengths_fit());
        write_instruction(&mut out, &message.instructions[j]);
        proof {
            assert(parts.take(j + 1) =~= parts.take(j as int).push(parts[j as int]));
            parts.take(j as int).lemma_flatten_push(parts[j as int]);
            assert(out@ =~= front + parts.take(j + 1).flatten());
        }
        j += 1;
    }
    assert(parts.take(parts.len() as int) =~= parts);
    assert(out@ =~= encode_message(message@));
    proof {
        lemma_message_round_trip(*message);
    }
    Ok(out)
}

/// Writes the message of an unsigned transaction in the binary layout; see
/// [`serialize_message`].
pub fn serialize_unsigned_transaction(transaction: &UnsignedTransaction) -> (outcome: Result<
    Vec<u8>,
    TransferError,
>)
    ensures
        transaction@.lengths_fit() ==> outcome is Ok && outcome->Ok_0@ == encode_message(
            transaction@,
        ),
        !transaction@.lengths_fit() ==> outcome is Err && outcome->Err_0@ == failure(
            ErrorCategory::Serialization,
            overlong_list_message(),
        ),
        outcome is Ok ==> decode_message(outcome->Ok_0@) == Some(transaction@),
{
    serialize_message(&transaction.message)
}

/// Reads one instruction from the front of `bytes`: the instruction, and
/// the number of bytes that it takes up.
pub open spec fn decode_instruction(bytes: Seq<u8>) -> Option<(InstructionView, int)> {
    if bytes.len() < 2 {
        None
    } else {
        let account_count = bytes[1] as int;
        if bytes.len() < 3 + account_count {
            None
        } else {
            let data_count = bytes[2 + account_count] as int;
            if bytes.len() < 3 + account_count + data_count {
                None
            } else {
                Some(
                    (
                        InstructionView {
                            program_id_index: bytes[0],
                            accounts: bytes.subrange(2, 2 + account_count),
                            data: bytes.subrange(
                                3 + account_count,
                                3 + account_count + data_count,
                            ),
                        },
                        3 + account_count + data_count,
                    ),
                )
            }
        }
    }
}

/// Reads `count` instructions that fill `bytes` exactly.
pub open spec fn decode_each_instruction(bytes: Seq<u8>, count: nat) -> Option<
    Seq<InstructionView>,
>
    decreases count,
{
    if count == 0 {
        if bytes.len() == 0 {
            Some(Seq::empty())
        } else {
            None
        }
    } else {
        match decode_instruction(bytes) {
            None => None,
            Some((instruction, used)) => match decode_each_instruction(
                bytes.skip(used),
                (count - 1) as nat,
            ) {
                None => None,
                Some(rest) => Some(seq![instruction] + rest),
            },
        }
    }
}

/// The 32-byte pieces of `bytes` from `start` on, `count` of them.
pub open spec fn key_pieces(bytes: Seq<u8>, start: int, count: nat) -> Seq<Seq<u8>> {
    Seq::new(count, |i: int| bytes.subrange(start + 32 * i, start + 32 * i + 32))
}

/// Reads a message that fills `bytes` exactly, or nothing where `bytes` is
/// not the layout of a message.
pub open spec fn decode_message(bytes: Seq<u8>) -> Option<MessageView> {
    if bytes.len() < 4 {
        None
    } else {
        let key_count = bytes[3] as nat;
        let keys_end = 4 + 32 * (key_count as int);
        if bytes.len() < keys_end + 33 {
            None
        } else {
            match decode_each_instruction(
                bytes.skip(keys_end + 33),
                bytes[keys_end + 32] as nat,
            ) {
                None => None,
                Some(instructions) => Some(
                    MessageView {
                        header: MessageHeader {
                            num_required_signatures: bytes[0],
                            num_readonly_signed_accounts: bytes[1],
                            num_readonly_unsigned_accounts: bytes[2],
                        },
                        account_keys: key_pieces(bytes, 4, key_count),
                        recent_blockhash: bytes.subrange(keys_end, keys_end + 32),
                        instructions,
                    },
                ),
            }
        }
    }
}

/// Keys of 32 bytes each, laid end to end, take up 32 bytes apiece, and
/// each is found again at its place.
proof fn lemma_keys_laid_out(keys: Seq<Seq<u8>>)
    requires
        forall|i: int| 0 <= i < keys.len() ==> (#[trigger] keys[i]).len() == 32,
    ensures
        keys.flatten().len() == 32 * keys.len(),
        key_pieces(keys.flatten(), 0, keys.len()) == keys,
    decreases keys.len(),
{
    if keys.len() == 0 {
        assert(key_pieces(keys.flatten(), 0, keys.len()) =~= keys);
    } else {
        let front = keys.drop_last();
        lemma_keys_laid_out(front);
        assert(keys =~= front.push(keys.last()));
        front.lemma_flatten_push(keys.last());
        let flat = keys.flatten();
        assert(flat =~= front.flatten() + keys.last());
        assert forall|i: int| 0 <= i < keys.len() implies #[trigger] key_pieces(
            flat,
            0,
            keys.len(),
        )[i] == keys[i] by {
            if i < front.len() {
                assert(key_pieces(front.flatten(), 0, front.len())[i] == front[i]);
                assert(flat.subrange(32 * i, 32 * i + 32) =~= front.flatten().subrange(
                    32 * i,
                    32 * i + 32,
                ));
            } else {
                assert(flat.subrange(32 * i, 32 * i + 32) =~= keys.last());
            }
        }
        assert(key_pieces(flat, 0, keys.len()) =~= keys);
    }
}

/// The 32-byte pieces of a stretch of bytes, laid end to end, are that
/// stretch.
proof fn lemma_pieces_laid_out(bytes: Seq<u8>, start: int, count: nat)
    requires
        0 <= start,
        start + 32 * count <= bytes.len(),
    ensures
        key_pieces(bytes, start, count).flatten() == bytes.subrange(start, start + 32 * count),
    decreases count,
{
    let pieces = key_pieces(bytes, start, count);
    if count == 0 {
        assert(pieces.flatten() =~= bytes.subrange(start, start + 32 * count));
    } else {
        let front = key_pieces(bytes, start, (count - 1) as nat);
        lemma_pieces_laid_out(bytes, start, (count - 1) as nat);
        assert(pieces =~= front.push(pieces.last()));
        front.lemma_flatten_push(pieces.last());
        assert(pieces.flatten() =~= bytes.subrange(start, start + 32 * count));
    }
}

/// The encodings of a list of instructions are the first one's followed by
/// those of the rest.
proof fn lemma_encode_each_unfold(instructions: Seq<InstructionView>)
    requires
        instructions.len() > 0,
    ensures
        encode_each_instruction(instructions) == encode_instruction(instructions[0])
            + encode_each_instruction(instructions.drop_first()),
{
    let parts = Seq::new(instructions.len(), |i: int| encode_instruction(instructions[i]));
    let rest = instructions.drop_first();
    let rest_parts = Seq::new(rest.len(), |i: int| encode_instruction(rest[i]));
    assert(parts.drop_first() =~= rest_parts);
}

/// Reading the front of an encoded instruction gives the instruction back,
/// whatever follows it.
proof fn lemma_decode_encoded_instruction(instruction: InstructionView, tail: Seq<u8>)
    requires
        instruction.lengths_fit(),
    ensures
        decode_instruction(encode_instruction(instruction) + tail) == Some(
            (instruction, encode_instruction(instruction).len() as int),
        ),
{
    let bytes = encode_instruction(instruction) + tail;
    let account_count = instruction.accounts.len() as int;
    let data_count = instruction.data.len() as int;
    assert(bytes[1] as int == account_count);
    assert(bytes[2 + account_count] as int == data_count);
    assert(bytes.subrange(2, 2 + account_count) =~= instruction.accounts);
    assert(bytes.subrange(3 + account_count, 3 + account_count + data_count)
        =~= instruction.data);
}

/// Reading back the encodings of a list of instructions gives the list.
proof fn lemma_decode_encoded_instructions(instructions: Seq<InstructionView>)
    requires
        forall|i: int| 0 <= i < instructions.len() ==> (#[trigger] instructions[i]).lengths_fit(),
    ensures
        decode_each_instruction(encode_each_instruction(instructions), instructions.len()) == Some(
            instructions,
        ),
    decreases instructions.len(),
{
    if instructions.len() == 0 {
        assert(instructions =~= Seq::empty());
    } else {
        let first = instructions[0];
        let rest = instructions.drop_first();
        let tail = encode_each_instruction(rest);
        lemma_encode_each_unfold(instructions);
        lemma_decode_encoded_instruction(first, tail);
        lemma_decode_encoded_instructions(rest);
        let used = encode_instruction(first).len() as int;
        assert((encode_instruction(first) + tail).skip(used) =~= tail);
        assert(seq![first] + rest =~= instructions);
    }
}

/// An instruction that was read from bytes fits its length bytes, and its
/// encoding is the bytes that were read.
proof fn lemma_encode_decoded_instruction(bytes: Seq<u8>)
    requires
        decode_instruction(bytes) is Some,
    ensures
        ({
            let (instruction, used) = decode_instruction(bytes)->Some_0;
            &&& instruction.lengths_fit()
            &&& 3 <= used <= bytes.len()
            &&& encode_instruction(instruction) == bytes.subrange(0, used)
        }),
{
    let (instruction, used) = decode_instruction(bytes)->Some_0;
    assert(encode_instruction(instruction) =~= bytes.subrange(0, used));
}

/// Instructions that were read from bytes fit their length bytes, and their
/// encodings are those bytes.
proof fn lemma_encode_decoded_instructions(bytes: Seq<u8>, count: nat)
    requires
        decode_each_instruction(bytes, count) is Some,
    ensures
        ({
            let instructions = decode_each_instruction(bytes, count)->Some_0;
            &&& instructions.len() == count
            &&& forall|i: int|
                0 <= i < instructions.len() ==> (#[trigger] instructions[i]).lengths_fit()
            &&& encode_each_instruction(instructions) == bytes
        }),
    decreases count,
{
    let instructions = decode_each_instruction(bytes, count)->Some_0;
    if count == 0 {
        assert(encode_each_instruction(instructions) =~= bytes);
    } else {
        let (first, used) = decode_instruction(bytes)->Some_0;
        let rest = decode_each_instruction(bytes.skip(used), (count - 1) as nat)->Some_0;
        lemma_encode_decoded_instruction(bytes);
        lemma_encode_decoded_instructions(bytes.skip(used), (count - 1) as nat);
        assert(instructions == seq![first] + rest);
        assert(instructions.drop_first() =~= rest);
        lemma_encode_each_unfold(instructions);
        assert(bytes.subrange(0, used) + bytes.skip(used) =~= bytes);
    }
}

/// Round trip: reading back what was written for a message gives the
/// message, with the same header, account keys, blockhash and instructions.
pub proof fn lemma_decode_inverts_encode(message: MessageView)
    requires
        message.encodable(),
    ensures
        decode_message(encode_message(message)) == Some(message),
{
    let bytes = encode_message(message);
    let keys = message.account_keys;
    let instructions = message.instructions;
    lemma_keys_laid_out(keys);
    lemma_decode_encoded_instructions(instructions);
    let keys_end = 4 + 32 * (keys.len() as int);
    assert(bytes[3] as nat == keys.len());
    assert(bytes[keys_end + 32] as nat == instructions.len());
    assert(bytes.skip(keys_end + 33) =~= encode_each_instruction(instructions));
    assert(bytes.subrange(keys_end, keys_end + 32) =~= message.recent_blockhash);
    assert(key_pieces(bytes, 4, keys.len()) =~= keys) by {
        assert forall|i: int| 0 <= i < keys.len() implies #[trigger] key_pieces(
            bytes,
            4,
            keys.len(),
        )[i] == keys[i] by {
            assert(key_pieces(keys.flatten(), 0, keys.len())[i] == keys[i]);
            assert(bytes.subrange(4 + 32 * i, 4 + 32 * i + 32) =~= keys.flatten().subrange(
                32 * i,
                32 * i + 32,
            ));
        }
    }
    let decoded = decode_message(bytes)->Some_0;
    assert(decoded.header == message.header);
}

/// Round trip, for the messages that the library holds: what is read back
/// from the bytes of a message whose lengths fit is that message.
pub proof fn lemma_message_round_trip(message: Message)
    requires
        message@.lengths_fit(),
    ensures
        decode_message(encode_message(message@)) == Some(message@),
{
    message.lemma_view_well_formed();
    lemma_decode_inverts_encode(message@);
}

/// What is read from bytes is an encodable message, and writing it gives
/// exactly those bytes.
pub proof fn lemma_encode_inverts_decode(bytes: Seq<u8>)
    requires
        decode_message(bytes) is Some,
    ensures
        decode_message(bytes)->Some_0.encodable(),
        encode_message(decode_message(bytes)->Some_0) == bytes,
{
    let message = decode_message(bytes)->Some_0;
    let key_count = bytes[3] as nat;
    let keys_end = 4 + 32 * (key_count as int);
    lemma_pieces_laid_out(bytes, 4, key_count);
    lemma_encode_decoded_instructions(bytes.skip(keys_end + 33), bytes[keys_end + 32] as nat);
    assert(encode_header(message.header) =~= bytes.subrange(0, 3));
    assert(encode_message(message) =~= bytes);
}

/// Two encodable messages with the same bytes are the same message.
pub proof fn lemma_encoding_is_injective(first: MessageView, second: MessageView)
    requires
        first.encodable(),
        second.encodable(),
        encode_message(first) == encode_message(second),
    ensures
        first == second,
{
    lemma_decode_inverts_encode(first);
    lemma_decode_inverts_encode(second);
}

/// The account-key section takes one byte and 32 more for each key.
pub proof fn lemma_account_key_section_length(keys: Seq<Seq<u8>>)
    requires
        forall|i: int| 0 <= i < keys.len() ==> (#[trigger] keys[i]).len() == KEY_LENGTH,
    ensures
        encode_account_keys(keys).len() == 1 + 32 * keys.len(),
{
    lemma_keys_laid_out(keys);
}

/// What is known of a whole list of instructions once its first ones are
/// read: they stand in front of whatever the rest gives.
spec fn behind(done: Seq<InstructionView>, rest: Option<Seq<InstructionView>>) -> Option<
    Seq<InstructionView>,
> {
    match rest {
        Some(others) => Some(done + others),
        None => None,
    }
}

/// Reads the instruction that starts at `start`: the instruction, and the
/// place behind it.
fn read_instruction(bytes: &[u8], start: usize) -> (outcome: Option<(Instruction, usize)>)
    requires
        start <= bytes@.len(),
    ensures
        match decode_instruction(bytes@.skip(start as int)) {
            Some((instruction, used)) => outcome is Some && outcome->Some_0.0@ == instruction
                && outcome->Some_0.1 == start + used,
            None => outcome is None,
        },
{
    let ghost tail = bytes@.skip(start as int);
    let left = bytes.len() - start;
    if left < 2 {
        return None;
    }
    let account_count: usize = bytes[start + 1] as usize;
    assert(tail[1] == bytes@[start + 1]);
    if left < 3 + account_count {
        return None;
    }
    let data_count: usize = bytes[start + 2 + account_count] as usize;
    assert(tail[2 + account_count] == bytes@[start + 2 + account_count]);
    if left < 3 + account_count + data_count {
        return None;
    }
    let accounts_start = start + 2;
    let data_start = start + 3 + account_count;
    let accounts = vstd::slice::slice_to_vec(
        slice_subrange(bytes, accounts_start, accounts_start + account_count),
    );
    let data = vstd::slice::slice_to_vec(slice_subrange(bytes, data_start, data_start + data_count));
    assert(accounts@ =~= tail.subrange(2, 2 + account_count));
    assert(data@ =~= tail.subrange(3 + account_count, 3 + account_count + data_count));
    assert(tail[0] == bytes@[start as int]);
    Some((Instruction { program_id_index: bytes[start], accounts, data }, data_start + data_count))
}

/// Reads a message from its binary layout, as [`decode_message`] says.
fn read_message(bytes: &[u8]) -> (outcome: Option<Message>)
    ensures
        match decode_message(bytes@) {
            Some(message) => outcome is Some && outcome->Some_0@ == message,
            None => outcome is None,
        },
{
    let length = bytes.len();
    if length < 4 {
        return None;
    }
    let key_count: usize = bytes[3] as usize;
    let keys_end: usize = 4 + 32 * key_count;
    if length < keys_end + 33 {
        return None;
    }
    let mut account_keys: Vec<PublicKey> = Vec::new();
    let mut i: usize = 0;
    while i < key_count
        invariant
            i <= key_count <= 255,
            keys_end == 4 + 32 * key_count,
            keys_end + 33 <= bytes@.len(),
            account_keys@.len() == i,
            forall|k: int|
                0 <= k < i ==> (#[trigger] account_keys@[k])@ == bytes@.subrange(
                    4 + 32 * k,
                    4 + 32 * k + 32,
                ),
        decreases key_count - i,
    {
        match PublicKey::from_bytes(slice_subrange(bytes, 4 + 32 * i, 4 + 32 * i + 32)) {
            Ok(key) => {
                account_keys.push(key);
            },
            Err(_) => {
                return None;
            },
        }
        i += 1;
    }
    let recent_blockhash = match BlockHash::from_bytes(
        slice_subrange(bytes, keys_end, keys_end + 32),
    ) {
        Ok(hash) => hash,
        Err(_) => {
            return None;
        },
    };
    let instruction_count: usize = bytes[keys_end + 32] as usize;
    let first: usize = keys_end + 33;
    let ghost whole = decode_each_instruction(bytes@.skip(first as int), instruction_count as nat);
    let mut instructions: Vec<Instruction> = Vec::new();
    let mut place: usize = first;
    let mut n: usize = 0;
    assert(Seq::<InstructionView>::empty() + whole->Some_0 =~= whole->Some_0);
    while n < instruction_count
        invariant
            n <= instruction_count,
            first <= place <= bytes@.len(),
            instructions@.len() == n,
            whole is None ==> decode_message(bytes@) is None,
            whole == behind(
                instruction_views(instructions@),
                decode_each_instruction(
                    bytes@.skip(place as int),
                    (instruction_count - n) as nat,
                ),
            ),
        decreases instruction_count - n,
    {
        let ghost done = instruction_views(instructions@);
        let ghost tail = bytes@.skip(place as int);
        match read_instruction(bytes, place) {
            None => {
                assert(decode_each_instruction(tail, (instruction_count - n) as nat) is None);
                return None;
            },
            Some((instruction, next)) => {
                proof {
                    lemma_encode_decoded_instruction(tail);
                    let used = next - place;
                    assert(tail.skip(used) =~= bytes@.skip(next as int));
                    let after = decode_each_instruction(
                        bytes@.skip(next as int),
                        (instruction_count - n - 1) as nat,
                    );
                    assert(instruction_views(instructions@.push(instruction)) =~= done.push(
                        instruction@,
                    ));
                    if after is Some {
                        assert(done + (seq![instruction@] + after->Some_0) =~= done.push(
                            instruction@,
                        ) + after->Some_0);
                    }
                }
                instructions.push(instruction);
                place = next;
            },
        }
        n += 1;
    }
    if place != length {
        return None;
    }
    proof {
        assert(bytes@.skip(place as int).len() == 0);
        assert(instruction_views(instructions@) + Seq::<InstructionView>::empty()
            =~= instruction_views(instructions@));
        assert(key_views(account_keys@) =~= key_pieces(bytes@, 4, key_count as nat));
    }
    Some(
        Message {
            header: MessageHeader {
                num_required_signatures: bytes[0],
                num_readonly_signed_accounts: bytes[1],
                num_readonly_unsigned_accounts: bytes[2],
            },
            account_keys,
            recent_blockhash,
            instructions,
        },
    )
}

/// Reads a message from its binary layout. The bytes must hold one message
/// and nothing else; on any other input nothing is returned.
///
/// This is the inverse of [`serialize_message`]: from the bytes of a
/// message that can be written, that message is read back, and whatever is
/// read is a message whose bytes are the input.
pub fn deserialize_message(bytes: &[u8]) -> (outcome: Option<Message>)
    ensures
        match decode_message(bytes@) {
            Some(message) => outcome is Some && outcome->Some_0@ == message,
            None => outcome is None,
        },
        forall|message: MessageView|
            message.encodable() && #[trigger] encode_message(message) == bytes@ ==> outcome is Some
                && outcome->Some_0@ == message,
        outcome is Some ==> encode_message(outcome->Some_0@) == bytes@,
{
    proof {
        assert forall|message: MessageView|
            message.encodable() && #[trigger] encode_message(message)
                == bytes@ implies decode_message(bytes@) == Some(message) by {
            lemma_decode_inverts_encode(message);
        }
        if decode_message(bytes@) is Some {
            lemma_encode_inverts_decode(bytes@);
        }
    }
    read_message(bytes)
}

/// A length as the ledger's own format writes it: seven bits to a byte,
/// lowest first, with the high bit set on every byte but the last.
pub open spec fn ledger_length_bytes(length: nat) -> Seq<u8>
    decreases length,
{
    if length < 128 {
        seq![length as u8]
    } else {
        seq![(length % 128 + 128) as u8] + ledger_length_bytes(length / 128)
    }
}

/// The single length byte written here reads the same in the ledger's own
/// format exactly for lengths below 128. From 128 to 255 the ledger's
/// format takes two bytes, so the two disagree.
pub proof fn lemma_length_byte_agrees_below_128(length: nat)
    requires
        length <= MAX_LIST_LENGTH,
    ensures
        (ledger_length_bytes(length) == seq![length as u8]) <==> length
            <= MAX_LEDGER_LIST_LENGTH,
{
    if length >= 128 {
        assert(ledger_length_bytes(length).len() >= 2) by {
            assert(ledger_length_bytes(length / 128).len() >= 1) by {
                reveal_with_fuel(ledger_length_bytes, 2);
            }
        }
        assert(seq![length as u8].len() == 1);
    }
}

/// The 64 bytes that stand for a signature slot: the signature where it is
/// set, zeros where it is not.
pub open spec fn slot_bytes(slot: Option<Seq<u8>>) -> Seq<u8> {
    match slot {
        Some(signature) => signature,
        None => Seq::new(SIGNATURE_LENGTH as nat, |i: int| 0u8),
    }
}

/// The signature section: the number of slots in one byte, then each
/// slot's 64 bytes in order.
pub open spec fn encode_signatures(slots: Seq<Option<Seq<u8>>>) -> Seq<u8> {
    seq![slots.len() as u8] + Seq::new(slots.len(), |i: int| slot_bytes(slots[i])).flatten()
}

/// The bytes of a signed transaction: the signature section, then the
/// message.
pub open spec fn encode_signed_transaction(transaction: SignedTransactionView) -> Seq<u8> {
    encode_signatures(transaction.signatures) + encode_message(transaction.message)
}

/// The signature section takes one byte and 64 more for each slot, set or
/// unset.
pub proof fn lemma_signature_section_length(slots: Seq<Option<Seq<u8>>>)
    requires
        forall|i: int|
            0 <= i < slots.len() && (#[trigger] slots[i]) is Some ==> slots[i]->Some_0.len()
                == SIGNATURE_LENGTH,
    ensures
        encode_signatures(slots).len() == 1 + 64 * slots.len(),
    decreases slots.len(),
{
    let parts = Seq::new(slots.len(), |i: int| slot_bytes(slots[i]));
    if slots.len() == 0 {
        assert(parts.flatten() =~= Seq::<u8>::empty());
    } else {
        let front = slots.drop_last();
        let front_parts = Seq::new(front.len(), |i: int| slot_bytes(front[i]));
        lemma_signature_section_length(front);
        assert(parts =~= front_parts.push(slot_bytes(slots.last())));
        front_parts.lemma_flatten_push(slot_bytes(slots.last()));
    }
}

impl SignedTransactionView {
    /// The slots and every list of the message are few enough for a single
    /// length byte.
    pub open spec fn lengths_fit(self) -> bool {
        self.signatures.len() <= MAX_LIST_LENGTH && self.message.lengths_fit()
    }

    /// The failure to write a transaction whose lengths do not fit: that
    /// of the slots where they are too many, that of the message's lists
    /// otherwise.
    pub open spec fn serialization_failure(self) -> Failure {
        if self.signatures.len() > MAX_LIST_LENGTH {
            failure(ErrorCategory::Serialization, overlong_slots_message())
        } else {
            failure(ErrorCategory::Serialization, overlong_list_message())
        }
    }
}

/// Writes a signed transaction in the binary layout: the number of
/// signature slots in one byte, each slot's 64 bytes (zeros for a slot that
/// is unset), then the message as [`serialize_message`] writes it. A
/// transaction with more than 255 slots, or whose message cannot be
/// written, is not written.
pub fn serialize_signed_transaction(transaction: &SignedTransaction) -> (outcome: Result<
    Vec<u8>,
    TransferError,
>)
    ensures
        transaction@.lengths_fit() ==> outcome is Ok && outcome->Ok_0@
            == encode_signed_transaction(transaction@),
        !transaction@.lengths_fit() ==> outcome is Err && outcome->Err_0@
            == transaction@.serialization_failure(),
{
    if transaction.signatures.len() > MAX_LIST_LENGTH {
        return Err(
            TransferError::new(
                ErrorCategory::Serialization,
                "there are too many signature slots for a one-byte length",
            ),
        );
    }
    let message_bytes = match serialize_message(&transaction.message) {
        Ok(bytes) => bytes,
        Err(error) => {
            return Err(error);
        },
    };
    let ghost slots = transaction@.signatures;
    let ghost parts = Seq::new(slots.len(), |k: int| slot_bytes(slots[k]));
    let mut out: Vec<u8> = Vec::new();
    out.push(transaction.signatures.len() as u8);
    let ghost head = out@;
    let unset = [0u8; 64];
    assert(unset@ =~= slot_bytes(None));
    let mut i: usize = 0;
    while i < transaction.signatures.len()
        invariant
            i <= transaction.signatures.len(),
            slots == transaction@.signatures,
            parts == Seq::new(slots.len(), |k: int| slot_bytes(slots[k])),
            unset@ == slot_bytes(None),
            out@ == head + parts.take(i as int).flatten(),
        decreases transaction.signatures.len() - i,
    {
        match &transaction.signatures[i] {
            Some(signature) => {
                let bytes = signature.to_bytes();
                append_bytes(&mut out, bytes.as_slice());
            },
            None => {
                append_bytes(&mut out, unset.as_slice());
            },
        }
        proof {
            assert(parts.take(i + 1) =~= parts.take(i as int).push(parts[i as int]));
            parts.take(i as int).lemma_flatten_push(parts[i as int]);
            assert(out@ =~= head + parts.take(i + 1).flatten());
        }
        i += 1;
    }
    assert(parts.take(parts.len() as int) =~= parts);
    append_bytes(&mut out, message_bytes.as_slice());
    assert(out@ =~= encode_signed_transaction(transaction@));
    Ok(out)
}

} // verus!
