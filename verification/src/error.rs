//! Failure categories shared by every stage of a transfer.

use vstd::prelude::*;

verus! {

/// Why a stage of a transfer failed.
#[derive(Clone, Copy, Debug, PartialEq, Eq, Structural)]
pub enum ErrorCategory {
    /// A malformed key or an index outside the account list.
    Validation,
    /// A provider could not be reached.
    Network,
    /// The providers did not agree on one response.
    Consensus,
    /// The response lacks the expected field, or reports a failure.
    Rpc,
    /// A list is too long for its one-byte length prefix.
    Serialization,
    /// The key material is malformed.
    Signing,
}

/// A failure: its category, and a message for people.
#[derive(Clone, Debug, PartialEq, Eq)]
pub struct TransferError {
    pub category: ErrorCategory,
    pub message: String,
}

/// A failure as a mathematical value.
pub struct Failure {
    pub category: ErrorCategory,
    pub message: Seq<char>,
}

impl View for TransferError {
    type V = Failure;

    open spec fn view(&self) -> Failure {
        Failure { category: self.category, message: self.message@ }
    }
}

/// The failure of the given category with the given message.
pub open spec fn failure(category: ErrorCategory, message: Seq<char>) -> Failure {
    Failure { category, message }
}

/// The name under which a category is shown.
pub open spec fn category_name(category: ErrorCategory) -> Seq<char> {
    match category {
        ErrorCategory::Validation => "ValidationError"@,
        ErrorCategory::Network => "NetworkError"@,
        ErrorCategory::Consensus => "ConsensusError"@,
        ErrorCategory::Rpc => "RpcError"@,
        ErrorCategory::Serialization => "SerializationError"@,
        ErrorCategory::Signing => "SigningError"@,
    }
}

/// The single line that stands for a failure at the outermost boundary.
pub open spec fn display_text(category: ErrorCategory, message: Seq<char>) -> Seq<char> {
    category_name(category) + ": "@ + message
}

impl ErrorCategory {
    /// The category's name.
    pub fn name(&self) -> (text: &'static str)
        ensures
            text@ == category_name(*self),
    {
        match self {
            ErrorCategory::Validation => "ValidationError",
            ErrorCategory::Network => "NetworkError",
            ErrorCategory::Consensus => "ConsensusError",
            ErrorCategory::Rpc => "RpcError",
            ErrorCategory::Serialization => "SerializationError",
            ErrorCategory::Signing => "SigningError",
        }
    }
}

impl TransferError {
    /// A failure of the given category with the given message.
    pub fn new(category: ErrorCategory, message: &str) -> (error: TransferError)
        ensures
            error@ == failure(category, message@),
    {
        TransferError { category, message: String::from_str(message) }
    }

    /// Flattens the failure to one line: the category's name, a colon and a
    /// space, then the message.
    pub fn to_display_string(&self) -> (text: String)
        ensures
            text@ == display_text(self.category, self.message@),
    {
        let mut text = String::from_str(self.category.name());
        text.append(": ");
        text.append(self.message.as_str());
        text
    }
}

} // verus!
