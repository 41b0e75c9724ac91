//! The transaction submitter: a state machine from a draft to the
//! signature under which the ledger took the transaction in, or to a
//! failure.
//!
//! The machine decides; the host does the outside work. Each step hands
//! the host an action, and the host hands the next step what the providers
//! replied.

use vstd::prelude::*;
use crate::builder::{malformed_blockhash_message, read_blockhash, TransactionDraft};
use crate::error::{failure, ErrorCategory, Failure, TransferError};
use crate::instructions::{fixed_call_draft, fixed_discriminator_call, transfer, transfer_draft};
use crate::keys::{key_bytes_of_text, key_text_failure, PublicKey};
use crate::request::CommitmentLevel;
use crate::rpc::{
    bytes_equal, latest_blockhash_text, send_transaction_text, OutboundRequest, ProviderOutcome,
    RpcClientConfig,
};
use crate::signer::{
    ed25519_signature, keypair_length_message, missing_slot_message, sign_bytes,
    slots_with_one_set, SecretKey, KEYPAIR_LENGTH, SECRET_KEY_LENGTH,
};
use crate::transaction::{
    accounts_failure, SignedTransaction, SignedTransactionView, UnsignedTransaction,
};
use crate::wire::{
    encode_message, encode_signed_transaction, overlong_list_message,
    serialize_signed_transaction, serialize_unsigned_transaction,
};

verus! {

/// The identifier that every request carries.
pub const REQUEST_ID: u32 = 1;

/// Where a submission stands.
#[derive(Clone, Debug, PartialEq, Eq)]
pub enum SubmissionState {
    /// The draft is checked; the latest blockhash is asked for.
    Built { draft: TransactionDraft },
    /// The blockhash is in; the transaction is whole.
    BlockhashFetched { transaction: UnsignedTransaction },
    /// The message is written in the binary layout.
    Serialized { transaction: UnsignedTransaction, message_bytes: Vec<u8> },
    /// The signature is set into its slot.
    Signed { transaction: SignedTransaction },
    /// The signed transaction is on its way to the providers.
    Submitted,
    /// The ledger took the transaction in, under this signature.
    Succeeded { signature: String },
    /// The submission failed; nothing more is done.
    Failed { error: TransferError },
}

/// What the host is to do before the next step.
#[derive(Clone, Debug, PartialEq, Eq)]
pub enum SubmissionAction {
    /// Send each request to its provider, and hand the outcomes, in the
    /// same order, to the next step.
    Send { requests: Vec<OutboundRequest> },
    /// Nothing: take the next step with no replies.
    Continue,
    /// Stop: the submission is over.
    Finish,
}

/// A submitter: the client's configuration, the commitment level at which
/// the blockhash is asked for, and the key that signs, with its slot.
#[derive(Clone)]
pub struct Submitter {
    pub config: RpcClientConfig,
    pub commitment: CommitmentLevel,
    pub signature_slot: usize,
    pub secret_key: SecretKey,
}

/// The state is the given failure, category and message.
pub open spec fn failed_with(state: SubmissionState, failed: Failure) -> bool {
    state matches SubmissionState::Failed { error } && error@ == failed
}

/// The message of the failure to submit a transaction with an unset slot.
pub open spec fn unset_slot_message() -> Seq<char> {
    "a signature slot is unset"@
}

/// The message of the failure to sign bytes that are not those of the
/// transaction's message.
pub open spec fn foreign_bytes_message() -> Seq<char> {
    "the bytes are not those of the transaction's message"@
}

/// The submission is over.
pub open spec fn is_final(state: SubmissionState) -> bool {
    state is Succeeded || state is Failed
}

/// How far a submission has come.
pub open spec fn stage(state: SubmissionState) -> nat {
    match state {
        SubmissionState::Built { .. } => 0,
        SubmissionState::BlockhashFetched { .. } => 1,
        SubmissionState::Serialized { .. } => 2,
        SubmissionState::Signed { .. } => 3,
        SubmissionState::Submitted => 4,
        SubmissionState::Succeeded { .. } => 5,
        SubmissionState::Failed { .. } => 5,
    }
}

impl Submitter {
    /// A submitter that signs into the given slot with the secret key of
    /// the given keypair. A keypair that does not hold exactly 64 bytes is
    /// rejected.
    pub fn new(
        config: RpcClientConfig,
        commitment: CommitmentLevel,
        signature_slot: usize,
        keypair: &[u8],
    ) -> (outcome: Result<Submitter, TransferError>)
        ensures
            keypair@.len() == KEYPAIR_LENGTH ==> outcome is Ok && outcome->Ok_0.config == config
                && outcome->Ok_0.commitment == commitment && outcome->Ok_0.signature_slot
                == signature_slot && outcome->Ok_0.secret_key@ == keypair@.subrange(
                0,
                SECRET_KEY_LENGTH as int,
            ),
            keypair@.len() != KEYPAIR_LENGTH ==> outcome is Err && outcome->Err_0@ == failure(
                ErrorCategory::Signing,
                keypair_length_message(),
            ),
    {
        match SecretKey::from_keypair(keypair) {
            Ok(secret_key) => Ok(Submitter { config, commitment, signature_slot, secret_key }),
            Err(error) => Err(error),
        }
    }

    /// What starting on a draft leads to: where the draft is valid, the
    /// state `Built` and the requests for the latest blockhash; otherwise a
    /// validation failure, and nothing to send.
    pub open spec fn starts_with(
        self,
        draft: TransactionDraft,
        state: SubmissionState,
        action: SubmissionAction,
    ) -> bool {
        if draft@.valid() {
            &&& state == (SubmissionState::Built { draft })
            &&& action matches SubmissionAction::Send { requests }
            &&& self.config.fans_out(requests@, latest_blockhash_text(REQUEST_ID, self.commitment))
        } else {
            failed_with(state, accounts_failure(draft.header, draft@.account_keys.len() as int))
                && action is Finish
        }
    }

    /// What one step leads to, from each state. Every failure ends the
    /// submission with its category and its message, and sends nothing.
    ///
    /// * `Built`: the replies are reconciled and the blockhash is read from
    ///   them; the draft and the blockhash make the transaction. A call
    ///   that fails fails the submission with the call's own failure: the
    ///   reason of the request that did not get through, the disagreement
    ///   of the providers, or the missing blockhash. A blockhash that is
    ///   not the text of 32 bytes is a malformed response.
    /// * `BlockhashFetched`: the message is written in the binary layout,
    ///   or the submission fails as a serialization failure.
    /// * `Serialized`: the bytes must be those of the transaction's
    ///   message, or the submission fails as a serialization failure. They
    ///   are signed and the signature is set into the submitter's slot, or
    ///   the submission fails as a validation failure where the header
    ///   provides no such slot.
    /// * `Signed`: a transaction with an unset slot fails the submission
    ///   as a signing failure; one that cannot be written, as a
    ///   serialization failure. Otherwise it is sent to every provider.
    /// * `Submitted`: the replies are reconciled and the signature is read
    ///   from them, or the submission fails with the call's own failure.
    /// * `Succeeded`, `Failed`: nothing changes.
    pub open spec fn steps_to(
        self,
        state: SubmissionState,
        replies: Seq<ProviderOutcome>,
        next: SubmissionState,
        action: SubmissionAction,
    ) -> bool {
        match state {
            SubmissionState::Built { draft } => match self.config.blockhash_outcome(replies) {
                Err(failed) => failed_with(next, failed) && action is Finish,
                Ok(text) => match key_bytes_of_text(text) {
                    None => failed_with(
                        next,
                        failure(ErrorCategory::Rpc, malformed_blockhash_message()),
                    ) && action is Finish,
                    Some(hash) => {
                        &&& next matches SubmissionState::BlockhashFetched { transaction }
                        &&& transaction@ == draft@.with_blockhash(hash)
                        &&& action is Continue
                    },
                },
            },
            SubmissionState::BlockhashFetched { transaction } => if transaction@.lengths_fit() {
                &&& next matches SubmissionState::Serialized { transaction: same, message_bytes }
                &&& same == transaction
                &&& message_bytes@ == encode_message(transaction@)
                &&& action is Continue
            } else {
                failed_with(next, failure(ErrorCategory::Serialization, overlong_list_message()))
                    && action is Finish
            },
            SubmissionState::Serialized {
                transaction,
                message_bytes,
            } => if !transaction@.lengths_fit() {
                failed_with(next, failure(ErrorCategory::Serialization, overlong_list_message()))
                    && action is Finish
            } else if message_bytes@ != encode_message(transaction@) {
                failed_with(next, failure(ErrorCategory::Serialization, foreign_bytes_message()))
                    && action is Finish
            } else if self.signature_slot >= transaction@.header.num_required_signatures {
                failed_with(next, failure(ErrorCategory::Validation, missing_slot_message()))
                    && action is Finish
            } else {
                &&& next matches SubmissionState::Signed { transaction: signed }
                &&& signed@.message == transaction@
                &&& signed@.signatures == slots_with_one_set(
                    transaction@.header.num_required_signatures as nat,
                    self.signature_slot as int,
                    ed25519_signature(self.secret_key@, encode_message(transaction@)),
                )
                &&& action is Continue
            },
            SubmissionState::Signed { transaction } => if !transaction@.fully_signed() {
                failed_with(next, failure(ErrorCategory::Signing, unset_slot_message()))
                    && action is Finish
            } else if !transaction@.lengths_fit() {
                failed_with(next, transaction@.serialization_failure()) && action is Finish
            } else {
                &&& next is Submitted
                &&& action matches SubmissionAction::Send { requests }
                &&& self.config.fans_out(
                    requests@,
                    send_transaction_text(REQUEST_ID, encode_signed_transaction(transaction@)),
                )
            },
            SubmissionState::Submitted => match self.config.signature_outcome(replies) {
                Err(failed) => failed_with(next, failed) && action is Finish,
                Ok(text) => {
                    &&& next matches SubmissionState::Succeeded { signature }
                    &&& signature@ == text
                    &&& action is Finish
                },
            },
            SubmissionState::Succeeded { .. } => next == state && action is Finish,
            SubmissionState::Failed { .. } => next == state && action is Finish,
        }
    }

    /// Starts a submission: checks the draft, and asks for the latest
    /// blockhash.
    pub fn start(&self, draft: TransactionDraft) -> (begun: (SubmissionState, SubmissionAction))
        ensures
            self.starts_with(draft, begun.0, begun.1),
    {
        match draft.validate() {
            Err(error) => (SubmissionState::Failed { error }, SubmissionAction::Finish),
            Ok(()) => {
                let requests = self.config.latest_blockhash_requests(REQUEST_ID, self.commitment);
                (SubmissionState::Built { draft }, SubmissionAction::Send { requests })
            },
        }
    }

    /// Takes one step. `replies` holds the outcomes of the requests that
    /// the last action asked for, in their order; it is empty where the
    /// last action asked for none.
    ///
    /// A transaction is sent only from the state `Signed`, and only with
    /// every signature slot set.
    pub fn step(&self, state: SubmissionState, replies: &Vec<ProviderOutcome>) -> (stepped: (
        SubmissionState,
        SubmissionAction,
    ))
        ensures
            self.steps_to(state, replies@, stepped.0, stepped.1),
            stepped.1 is Send ==> (state matches SubmissionState::Signed { transaction }
                && transaction@.fully_signed()),
    {
        match state {
            SubmissionState::Built { draft } => {
                let text = match self.config.get_latest_blockhash(replies) {
                    Ok(text) => text,
                    Err(error) => {
                        return (SubmissionState::Failed { error }, SubmissionAction::Finish);
                    },
                };
                match read_blockhash(text.as_str()) {
                    Ok(hash) => (
                        SubmissionState::BlockhashFetched {
                            transaction: draft.with_blockhash(hash),
                        },
                        SubmissionAction::Continue,
                    ),
                    Err(error) => (SubmissionState::Failed { error }, SubmissionAction::Finish),
                }
            },
            SubmissionState::BlockhashFetched { transaction } => {
                match serialize_unsigned_transaction(&transaction) {
                    Ok(message_bytes) => (
                        SubmissionState::Serialized { transaction, message_bytes },
                        SubmissionAction::Continue,
                    ),
                    Err(error) => (SubmissionState::Failed { error }, SubmissionAction::Finish),
                }
            },
            SubmissionState::Serialized { transaction, message_bytes } => {
                let written = match serialize_unsigned_transaction(&transaction) {
                    Ok(written) => written,
                    Err(error) => {
                        return (SubmissionState::Failed { error }, SubmissionAction::Finish);
                    },
                };
                if !bytes_equal(written.as_slice(), message_bytes.as_slice()) {
                    return (
                        SubmissionState::Failed {
                            error: TransferError::new(
                                ErrorCategory::Serialization,
                                "the bytes are not those of the transaction's message",
                            ),
                        },
                        SubmissionAction::Finish,
                    );
                }
                let signature = sign_bytes(written.as_slice(), &self.secret_key);
                match SignedTransaction::with_signature(
                    transaction.message,
                    self.signature_slot,
                    signature,
                ) {
                    Ok(signed) => (
                        SubmissionState::Signed { transaction: signed },
                        SubmissionAction::Continue,
                    ),
                    Err(error) => (SubmissionState::Failed { error }, SubmissionAction::Finish),
                }
            },
            SubmissionState::Signed { transaction } => {
                if !transaction.is_fully_signed() {
                    return (
                        SubmissionState::Failed {
                            error: TransferError::new(
                                ErrorCategory::Signing,
                                "a signature slot is unset",
                            ),
                        },
                        SubmissionAction::Finish,
                    );
                }
                match serialize_signed_transaction(&transaction) {
                    Ok(signed_bytes) => {
                        let requests = self.config.send_transaction_requests(
                            REQUEST_ID,
                            signed_bytes.as_slice(),
                        );
                        (SubmissionState::Submitted, SubmissionAction::Send { requests })
                    },
                    Err(error) => (SubmissionState::Failed { error }, SubmissionAction::Finish),
                }
            },
            SubmissionState::Submitted => {
                match self.config.send_transaction(replies) {
                    Ok(signature) => (
                        SubmissionState::Succeeded { signature },
                        SubmissionAction::Finish,
                    ),
                    Err(error) => (SubmissionState::Failed { error }, SubmissionAction::Finish),
                }
            },
            SubmissionState::Succeeded { signature } => (
                SubmissionState::Succeeded { signature },
                SubmissionAction::Finish,
            ),
            SubmissionState::Failed { error } => (
                SubmissionState::Failed { error },
                SubmissionAction::Finish,
            ),
        }
    }

    /// Every step of a submission that is not over moves it forward, and
    /// the host is told to stop exactly when it is over.
    pub proof fn lemma_every_step_advances(
        self,
        state: SubmissionState,
        replies: Seq<ProviderOutcome>,
        next: SubmissionState,
        action: SubmissionAction,
    )
        requires
            self.steps_to(state, replies, next, action),
        ensures
            !is_final(state) ==> stage(next) > stage(state),
            is_final(state) ==> next == state,
            action is Finish <==> is_final(next),
    {
    }

    /// Nothing goes to the ledger before the transaction is signed in
    /// full: a step asks the host to send a transaction only from the
    /// state `Signed`, with every slot set, and any failure up to then ends
    /// the submission with nothing sent.
    pub proof fn lemma_nothing_sent_unsigned(
        self,
        state: SubmissionState,
        replies: Seq<ProviderOutcome>,
        next: SubmissionState,
        action: SubmissionAction,
    )
        requires
            self.steps_to(state, replies, next, action),
        ensures
            action is Send ==> (state matches SubmissionState::Signed { transaction }
                && transaction@.fully_signed()),
            next is Failed ==> !(action is Send),
    {
    }

    /// A submission whose every stage can be done ends well. From the
    /// state `Built`, where the providers agree on a reply that holds a
    /// blockhash of 32 bytes, the message's lengths fit, the header asks for
    /// the single signature that the submitter gives, and the providers
    /// agree on a reply that holds a signature, five steps lead to
    /// `Succeeded` with that signature; only the fourth of them sends
    /// anything, and what it sends is the signed transaction.
    pub proof fn lemma_submission_succeeds(
        self,
        draft: TransactionDraft,
        blockhash_replies: Seq<ProviderOutcome>,
        signature_replies: Seq<ProviderOutcome>,
        states: Seq<SubmissionState>,
        actions: Seq<SubmissionAction>,
    )
        requires
            states.len() == 5,
            actions.len() == 5,
            self.steps_to(
                SubmissionState::Built { draft },
                blockhash_replies,
                states[0],
                actions[0],
            ),
            self.steps_to(states[0], Seq::empty(), states[1], actions[1]),
            self.steps_to(states[1], Seq::empty(), states[2], actions[2]),
            self.steps_to(states[2], Seq::empty(), states[3], actions[3]),
            self.steps_to(states[3], signature_replies, states[4], actions[4]),
            self.config.blockhash_outcome(blockhash_replies) is Ok,
            key_bytes_of_text(
                self.config.blockhash_outcome(blockhash_replies)->Ok_0,
            ) is Some,
            draft@.with_blockhash(
                key_bytes_of_text(
                    self.config.blockhash_outcome(blockhash_replies)->Ok_0,
                )->Some_0,
            ).lengths_fit(),
            draft@.header.num_required_signatures == 1,
            self.signature_slot == 0,
            self.config.signature_outcome(signature_replies) is Ok,
        ensures
            states[4] matches SubmissionState::Succeeded { signature } && signature@
                == self.config.signature_outcome(signature_replies)->Ok_0,
            actions[0] is Continue,
            actions[1] is Continue,
            actions[2] is Continue,
            actions[3] matches SubmissionAction::Send { requests } && ({
                let message = draft@.with_blockhash(
                    key_bytes_of_text(
                        self.config.blockhash_outcome(blockhash_replies)->Ok_0,
                    )->Some_0,
                );
                self.config.fans_out(
                    requests@,
                    send_transaction_text(
                        REQUEST_ID,
                        encode_signed_transaction(
                            SignedTransactionView {
                                signatures: seq![
                                    Some(ed25519_signature(self.secret_key@, encode_message(message))),
                                ],
                                message,
                            },
                        ),
                    ),
                )
            }),
            actions[4] is Finish,
    {
        let hash = key_bytes_of_text(
            self.config.blockhash_outcome(blockhash_replies)->Ok_0,
        )->Some_0;
        let message = draft@.with_blockhash(hash);
        let signed = states[2]->Signed_transaction@;
        let signature = ed25519_signature(self.secret_key@, encode_message(message));
        assert(signed.signatures =~= seq![Some(signature)]);
    }

    /// Where the call for the latest blockhash fails, the submission ends
    /// in the state `Built` with the call's own failure, category and
    /// message: no blockhash is set, no transaction is made, nothing is
    /// signed and nothing is sent.
    pub proof fn lemma_builder_aborts_without_blockhash(
        self,
        draft: TransactionDraft,
        replies: Seq<ProviderOutcome>,
        next: SubmissionState,
        action: SubmissionAction,
    )
        requires
            self.steps_to(SubmissionState::Built { draft }, replies, next, action),
            self.config.blockhash_outcome(replies) is Err,
        ensures
            failed_with(next, self.config.blockhash_outcome(replies)->Err_0),
            action is Finish,
    {
    }
}

/// Builds the draft of a transfer of `amount` units between two accounts
/// given by their base-58 texts. A text that is not that of a 32-byte key
/// is rejected; where both are, the payer's failure is reported.
pub fn native_transfer_draft(from: &str, to: &str, amount: u64) -> (outcome: Result<
    TransactionDraft,
    TransferError,
>)
    ensures
        match (key_bytes_of_text(from@), key_bytes_of_text(to@)) {
            (Some(source), Some(target)) => outcome is Ok && outcome->Ok_0@ == transfer_draft(
                source,
                target,
                amount,
            ),
            (None, _) => outcome is Err && outcome->Err_0@ == key_text_failure(from@),
            (Some(_), None) => outcome is Err && outcome->Err_0@ == key_text_failure(to@),
        },
{
    let source = match PublicKey::from_base58(from) {
        Ok(key) => key,
        Err(error) => {
            return Err(error);
        },
    };
    let target = match PublicKey::from_base58(to) {
        Ok(key) => key,
        Err(error) => {
            return Err(error);
        },
    };
    Ok(transfer(&source, &target, amount))
}

/// Builds the draft of a call of the fixed entry point of a program on
/// behalf of an account, both given by their base-58 texts. A text that is
/// not that of a 32-byte key is rejected; where both are, the account's
/// failure is reported.
pub fn fixed_entry_point_draft(program_id: &str, from: &str) -> (outcome: Result<
    TransactionDraft,
    TransferError,
>)
    ensures
        match (key_bytes_of_text(program_id@), key_bytes_of_text(from@)) {
            (Some(program), Some(source)) => outcome is Ok && outcome->Ok_0@ == fixed_call_draft(
                program,
                source,
            ),
            (_, None) => outcome is Err && outcome->Err_0@ == key_text_failure(from@),
            (None, Some(_)) => outcome is Err && outcome->Err_0@ == key_text_failure(program_id@),
        },
{
    let source = match PublicKey::from_base58(from) {
        Ok(key) => key,
        Err(error) => {
            return Err(error);
        },
    };
    let program = match PublicKey::from_base58(program_id) {
        Ok(key) => key,
        Err(error) => {
            return Err(error);
        },
    };
    Ok(fixed_discriminator_call(&program, &source))
}

} // verus!
