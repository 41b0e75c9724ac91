//! The JSON-RPC requests that the providers are sent, and their exact text.

use vstd::prelude::*;
use crate::base58::{base58_encoding, encode_base58, is_base58_text};
use crate::json::{json_string, json_string_text, lemma_plain_text_is_quoted, quoted};
use crate::text::{decimal_digits, decimal_text, trim_text, trimmed};

verus! {

/// How settled a ledger state must be for a provider to report it.
#[derive(Clone, Copy, Debug, PartialEq, Eq, Structural)]
pub enum CommitmentLevel {
    Processed,
    Confirmed,
    Finalized,
}

/// The commitment object of a request.
#[derive(Clone, Debug, PartialEq, Eq)]
pub struct SolanaApiCommitment {
    pub commitment: String,
}

/// One positional parameter of a request. An address or a transaction
/// holds its raw text, which is written into the request as a JSON string.
#[derive(Clone, Debug, PartialEq, Eq)]
pub enum SolanaApiParams {
    Address(String),
    Transaction(String),
    Commitment(SolanaApiCommitment),
}

/// A JSON-RPC request.
#[derive(Clone, Debug, PartialEq, Eq)]
pub struct SolanaApiRequest {
    pub jsonrpc: String,
    pub id: u32,
    pub method: String,
    pub params: Vec<SolanaApiParams>,
}

/// The result of a JSON-RPC call where it is a string.
#[derive(Clone, Debug, PartialEq, Eq)]
pub struct SolanaApiResponse {
    pub result: String,
}

/// The name of a commitment level on the wire.
pub open spec fn commitment_name(level: CommitmentLevel) -> Seq<char> {
    match level {
        CommitmentLevel::Processed => "processed"@,
        CommitmentLevel::Confirmed => "confirmed"@,
        CommitmentLevel::Finalized => "finalized"@,
    }
}

/// The text of one parameter: a commitment as an object with the single
/// member `commitment`, an address or a transaction as a JSON string.
pub open spec fn param_text(param: SolanaApiParams) -> Seq<char> {
    match param {
        SolanaApiParams::Commitment(commitment) => "{\"commitment\":\""@ + commitment.commitment@
            + "\"}"@,
        SolanaApiParams::Address(address) => json_string_text(address@),
        SolanaApiParams::Transaction(transaction) => json_string_text(transaction@),
    }
}

/// The texts of the parameters, with a comma between each two.
pub open spec fn params_text(params: Seq<SolanaApiParams>) -> Seq<char>
    decreases params.len(),
{
    if params.len() == 0 {
        Seq::empty()
    } else if params.len() == 1 {
        param_text(params[0])
    } else {
        params_text(params.drop_last()) + ","@ + param_text(params.last())
    }
}

/// The text of a request: the members `id`, `jsonrpc`, `method` and
/// `params`, in this order, with no white space between them. The method's
/// name is trimmed. The version, the method's name and a commitment's name
/// are written as they stand, between quotes.
pub open spec fn request_text(request: SolanaApiRequest) -> Seq<char> {
    "{\"id\":"@ + decimal_digits(request.id as nat) + ",\"jsonrpc\":\""@ + request.jsonrpc@
        + "\",\"method\":\""@ + trimmed(request.method@) + "\",\"params\":["@ + params_text(
        request.params@,
    ) + "]}"@
}

impl CommitmentLevel {
    /// The level's name on the wire.
    pub fn name(&self) -> (text: &'static str)
        ensures
            text@ == commitment_name(*self),
    {
        match self {
            CommitmentLevel::Processed => "processed",
            CommitmentLevel::Confirmed => "confirmed",
            CommitmentLevel::Finalized => "finalized",
        }
    }
}

impl SolanaApiParams {
    /// The parameter's text.
    pub fn to_json_string(&self) -> (text: String)
        ensures
            text@ == param_text(*self),
    {
        match self {
            SolanaApiParams::Commitment(commitment) => {
                let mut text = String::from_str("{\"commitment\":\"");
                text.append(commitment.commitment.as_str());
                text.append("\"}");
                text
            },
            SolanaApiParams::Address(address) => json_string(address.as_str()),
            SolanaApiParams::Transaction(transaction) => json_string(transaction.as_str()),
        }
    }
}

impl SolanaApiRequest {
    /// The request that asks for the latest blockhash at the given
    /// commitment level.
    pub fn latest_blockhash(id: u32, commitment: CommitmentLevel) -> (request: SolanaApiRequest)
        ensures
            request.id == id,
            request.jsonrpc@ == "2.0"@,
            request.method@ == "getLatestBlockhash"@,
            request.params@.len() == 1,
            request.params@[0] is Commitment,
            request.params@[0]->Commitment_0.commitment@ == commitment_name(commitment),
    {
        let mut params: Vec<SolanaApiParams> = Vec::new();
        params.push(
            SolanaApiParams::Commitment(
                SolanaApiCommitment { commitment: String::from_str(commitment.name()) },
            ),
        );
        SolanaApiRequest {
            jsonrpc: String::from_str("2.0"),
            id,
            method: String::from_str("getLatestBlockhash"),
            params,
        }
    }

    /// The request that submits a signed transaction, given as the base-58
    /// text of its binary layout. Its single parameter is that text.
    pub fn send_encoded_transaction(id: u32, encoded: &str) -> (request: SolanaApiRequest)
        ensures
            request.id == id,
            request.jsonrpc@ == "2.0"@,
            request.method@ == "sendTransaction"@,
            request.params@.len() == 1,
            request.params@[0] is Transaction,
            request.params@[0]->Transaction_0@ == encoded@,
    {
        let mut params: Vec<SolanaApiParams> = Vec::new();
        params.push(SolanaApiParams::Transaction(String::from_str(encoded)));
        SolanaApiRequest {
            jsonrpc: String::from_str("2.0"),
            id,
            method: String::from_str("sendTransaction"),
            params,
        }
    }

    /// The request that submits a signed transaction, given in its binary
    /// layout. Its single parameter is the base-58 text of those bytes.
    pub fn send_transaction(id: u32, signed_bytes: &[u8]) -> (request: SolanaApiRequest)
        ensures
            request.id == id,
            request.jsonrpc@ == "2.0"@,
            request.method@ == "sendTransaction"@,
            request.params@.len() == 1,
            request.params@[0] is Transaction,
            request.params@[0]->Transaction_0@ == base58_encoding(signed_bytes@),
    {
        SolanaApiRequest::send_encoded_transaction(id, encode_base58(signed_bytes).as_str())
    }

    /// The request's text, as it is sent.
    pub fn to_json_string(&self) -> (text: String)
        ensures
            text@ == request_text(*self),
    {
        let mut text = String::from_str("{\"id\":");
        text.append(decimal_text(self.id as u64).as_str());
        text.append(",\"jsonrpc\":\"");
        text.append(self.jsonrpc.as_str());
        text.append("\",\"method\":\"");
        text.append(trim_text(self.method.as_str()));
        text.append("\",\"params\":[");
        let ghost head = text@;
        let mut i: usize = 0;
        while i < self.params.len()
            invariant
                i <= self.params.len(),
                text@ == head + params_text(self.params@.take(i as int)),
            decreases self.params.len() - i,
        {
            proof {
                let longer = self.params@.take(i + 1);
                assert(longer.drop_last() =~= self.params@.take(i as int));
            }
            if i > 0 {
                text.append(",");
            }
            text.append(self.params[i].to_json_string().as_str());
            i += 1;
        }
        assert(self.params@.take(self.params@.len() as int) =~= self.params@);
        text.append("]}");
        text
    }
}

/// An address or a transaction in base-58 text stands in a request as a
/// JSON string that needs no escaping: the text as it is, between double
/// quotes. So a request with one such parameter ends in `"params":["`,
/// the text, and `"]}`.
pub proof fn lemma_base58_parameter_is_quoted(request: SolanaApiRequest, text: Seq<char>)
    requires
        request.params@.len() == 1,
        (request.params@[0] matches SolanaApiParams::Address(address) && address@ == text) || (
        request.params@[0] matches SolanaApiParams::Transaction(transaction) && transaction@
            == text),
        is_base58_text(text),
    ensures
        param_text(request.params@[0]) == quoted(text),
        request_text(request) == "{\"id\":"@ + decimal_digits(request.id as nat)
            + ",\"jsonrpc\":\""@ + request.jsonrpc@ + "\",\"method\":\""@ + trimmed(
            request.method@,
        ) + "\",\"params\":["@ + quoted(text) + "]}"@,
{
    lemma_plain_text_is_quoted(text);
}

} // verus!
