//! The consensus RPC client: one request to every provider, and one
//! reconciled result from their replies.
//!
//! The library neither sends nor receives. It says what is to be sent to
//! each provider, and it judges what came back.

use vstd::prelude::*;
use vstd::slice::slice_to_vec;
use vstd::utf8::encode_utf8;
use crate::error::{failure, ErrorCategory, Failure, TransferError};
use crate::json::{json_string_field, json_string_text, string_field};
use crate::request::{commitment_name, request_text, CommitmentLevel, SolanaApiRequest};
use crate::base58::base58_encoding;
use crate::text::decimal_digits;

verus! {

/// The method of an outbound request.
#[derive(Clone, Copy, Debug, PartialEq, Eq, Structural)]
pub enum HttpMethod {
    Get,
    Post,
}

/// One header of an outbound request.
#[derive(Clone, Debug, PartialEq, Eq)]
pub struct HttpHeader {
    pub name: String,
    pub value: String,
}

/// A provider: the endpoint it answers at, and the header that
/// authorises requests to it, if it asks for one.
#[derive(Clone, Debug, PartialEq, Eq)]
pub struct RpcProvider {
    pub url: String,
    pub auth_header: Option<HttpHeader>,
}

/// How the replies of several providers are reconciled into one.
#[derive(Clone, Copy, Debug, PartialEq, Eq, Structural)]
pub enum ConsensusStrategy {
    /// Every provider must reply, and all replies must be the same bytes.
    Equality,
}

/// What a client is configured with.
#[derive(Clone, Debug, PartialEq, Eq)]
pub struct RpcClientConfig {
    /// The providers, each of which is sent every request.
    pub providers: Vec<RpcProvider>,
    /// How their replies are reconciled.
    pub consensus: ConsensusStrategy,
    /// The largest reply that is accepted from a provider, if there is a
    /// limit.
    pub max_response_bytes: Option<u64>,
    /// The most that one request to one provider may cost.
    pub max_cost: u128,
    /// The name of the transform that the host applies to each reply
    /// before it hands it back, to strip what differs between providers
    /// without meaning anything.
    pub transform: Option<String>,
    /// Whether replies may come compressed.
    pub use_compression: bool,
}

/// A request for the host to send.
#[derive(Clone, Debug, PartialEq, Eq)]
pub struct OutboundRequest {
    pub url: String,
    pub method: HttpMethod,
    pub headers: Vec<HttpHeader>,
    pub body: Option<Vec<u8>>,
    pub max_response_bytes: Option<u64>,
    pub max_cost: u128,
    pub transform: Option<String>,
    pub use_compression: bool,
}

/// What came of a request to one provider.
#[derive(Clone, Debug, PartialEq, Eq)]
pub enum ProviderOutcome {
    /// The provider replied.
    Response { status: u16, body: Vec<u8> },
    /// The request did not get through, for the given reason.
    Failure { reason: String },
}

/// The header has the given name and value.
pub open spec fn header_is(header: HttpHeader, name: Seq<char>, value: Seq<char>) -> bool {
    header.name@ == name && header.value@ == value
}

/// The body of a reply; a failure has none.
pub open spec fn reply_body(reply: ProviderOutcome) -> Seq<u8> {
    match reply {
        ProviderOutcome::Response { body, .. } => body@,
        ProviderOutcome::Failure { .. } => Seq::empty(),
    }
}

/// Some request did not get through.
pub open spec fn any_failed(replies: Seq<ProviderOutcome>) -> bool {
    exists|i: int| 0 <= i < replies.len() && (#[trigger] replies[i]) is Failure
}

/// The request at `index` is the first that did not get through.
pub open spec fn is_first_failure(replies: Seq<ProviderOutcome>, index: int) -> bool {
    &&& 0 <= index < replies.len()
    &&& replies[index] is Failure
    &&& forall|k: int| 0 <= k < index ==> (#[trigger] replies[k]) is Response
}

/// The reason for which the first request that did not get through did
/// not.
pub open spec fn first_failure_reason(replies: Seq<ProviderOutcome>) -> Seq<char> {
    replies[choose|index: int| is_first_failure(replies, index)]->reason@
}

/// The message of the failure of a call whose replies do not number the
/// providers.
pub open spec fn miscounted_message() -> Seq<char> {
    "there is not one reply for each provider"@
}

/// The message of the failure of a call whose replies differ.
pub open spec fn differing_message() -> Seq<char> {
    "the providers' replies differ"@
}

/// The message of the failure of a call whose reply holds no blockhash.
pub open spec fn missing_blockhash_message() -> Seq<char> {
    "the reply holds no blockhash"@
}

/// The message of the failure of a call whose reply holds no signature.
pub open spec fn missing_signature_message() -> Seq<char> {
    "the reply holds no signature"@
}

/// Every reply has the same body as the first.
pub open spec fn all_agree(replies: Seq<ProviderOutcome>) -> bool {
    forall|i: int|
        0 <= i < replies.len() ==> reply_body(#[trigger] replies[i]) == reply_body(replies[0])
}

/// The JSON pointer under which a reply holds the latest blockhash.
pub open spec fn blockhash_pointer() -> Seq<char> {
    "/result/value/blockhash"@
}

/// The JSON pointer under which a reply holds the signature of a
/// transaction that was accepted.
pub open spec fn signature_pointer() -> Seq<char> {
    "/result"@
}

/// The text of the request for the latest blockhash.
pub open spec fn latest_blockhash_text(id: u32, commitment: CommitmentLevel) -> Seq<char> {
    "{\"id\":"@ + decimal_digits(id as nat)
        + ",\"jsonrpc\":\"2.0\",\"method\":\"getLatestBlockhash\",\"params\":[{\"commitment\":\""@
        + commitment_name(commitment) + "\"}]}"@
}

/// The text of the request that submits a signed transaction, given in its
/// binary layout: its one parameter is the base-58 text of those bytes as a
/// JSON string.
pub open spec fn send_transaction_text(id: u32, signed_bytes: Seq<u8>) -> Seq<char> {
    "{\"id\":"@ + decimal_digits(id as nat)
        + ",\"jsonrpc\":\"2.0\",\"method\":\"sendTransaction\",\"params\":["@
        + json_string_text(base58_encoding(signed_bytes)) + "]}"@
}

/// Whether two byte sequences are the same.
pub(crate) fn bytes_equal(first: &[u8], second: &[u8]) -> (same: bool)
    ensures
        same == (first@ == second@),
{
    if first.len() != second.len() {
        return false;
    }
    let mut i: usize = 0;
    while i < first.len()
        invariant
            i <= first.len(),
            first@.len() == second@.len(),
            forall|k: int| 0 <= k < i ==> first@[k] == second@[k],
        decreases first.len() - i,
    {
        if first[i] != second[i] {
            return false;
        }
        i += 1;
    }
    assert(first@ =~= second@);
    true
}

/// Turns what was found under a pointer into the result of a call: the
/// string where there is one, and a failure of the call with the given
/// message where there is none.
pub fn field_or_rpc_error(found: Option<String>, missing: &str) -> (outcome: Result<
    String,
    TransferError,
>)
    ensures
        match found {
            Some(text) => outcome == Ok::<String, TransferError>(text),
            None => outcome is Err && outcome->Err_0@ == failure(ErrorCategory::Rpc, missing@),
        },
{
    match found {
        Some(text) => Ok(text),
        None => Err(TransferError::new(ErrorCategory::Rpc, missing)),
    }
}

impl RpcClientConfig {
    /// `request` is what goes to `provider` when `text` is sent: a POST to
    /// the provider's endpoint, with the text's bytes as its body, the
    /// JSON content type and the provider's own header, under the
    /// client's limits.
    pub open spec fn addresses(
        self,
        request: OutboundRequest,
        provider: RpcProvider,
        text: Seq<char>,
    ) -> bool {
        &&& request.url@ == provider.url@
        &&& request.method == HttpMethod::Post
        &&& request.body is Some
        &&& request.body->Some_0@ == encode_utf8(text)
        &&& request.max_response_bytes == self.max_response_bytes
        &&& request.max_cost == self.max_cost
        &&& request.use_compression == self.use_compression
        &&& match self.transform {
            Some(name) => request.transform is Some && request.transform->Some_0@ == name@,
            None => request.transform is None,
        }
        &&& request.headers@.len() >= 1
        &&& header_is(request.headers@[0], "Content-Type"@, "application/json"@)
        &&& match provider.auth_header {
            Some(header) => request.headers@.len() == 2 && header_is(
                request.headers@[1],
                header.name@,
                header.value@,
            ),
            None => request.headers@.len() == 1,
        }
    }

    /// `requests` is `text` sent to every provider: one request for each,
    /// in the providers' order.
    pub open spec fn fans_out(self, requests: Seq<OutboundRequest>, text: Seq<char>) -> bool {
        &&& requests.len() == self.providers@.len()
        &&& forall|i: int|
            0 <= i < requests.len() ==> self.addresses(
                #[trigger] requests[i],
                self.providers@[i],
                text,
            )
    }

    /// What the replies reconcile to: the one body that every provider
    /// replied with, or the failure.
    ///
    /// There must be one reply for each provider, and at least one; a
    /// request that did not get through fails the call as a network
    /// failure, with the reason of the first such request as its message;
    /// replies that differ fail it as a consensus failure. The
    /// replies are compared byte for byte as the host hands them back,
    /// which is after the client's transform, if it names one.
    pub open spec fn reconciled(self, replies: Seq<ProviderOutcome>) -> Result<Seq<u8>, Failure> {
        match self.consensus {
            ConsensusStrategy::Equality => {
                if replies.len() == 0 || replies.len() != self.providers@.len() {
                    Err(failure(ErrorCategory::Consensus, miscounted_message()))
                } else if any_failed(replies) {
                    Err(failure(ErrorCategory::Network, first_failure_reason(replies)))
                } else if !all_agree(replies) {
                    Err(failure(ErrorCategory::Consensus, differing_message()))
                } else {
                    Ok(reply_body(replies[0]))
                }
            },
        }
    }

    /// What a call gives whose result is the string under `pointer`: that
    /// string from the reconciled reply; the failure to reconcile the
    /// replies; or, where the reconciled reply holds no such string, a
    /// malformed response with the message `missing`.
    pub open spec fn field_outcome(
        self,
        replies: Seq<ProviderOutcome>,
        pointer: Seq<char>,
        missing: Seq<char>,
    ) -> Result<Seq<char>, Failure> {
        match self.reconciled(replies) {
            Err(failed) => Err(failed),
            Ok(body) => match string_field(body, pointer) {
                Some(text) => Ok(text),
                None => Err(failure(ErrorCategory::Rpc, missing)),
            },
        }
    }

    /// What the call for the latest blockhash gives.
    pub open spec fn blockhash_outcome(self, replies: Seq<ProviderOutcome>) -> Result<
        Seq<char>,
        Failure,
    > {
        self.field_outcome(replies, blockhash_pointer(), missing_blockhash_message())
    }

    /// What the call that submits a transaction gives.
    pub open spec fn signature_outcome(self, replies: Seq<ProviderOutcome>) -> Result<
        Seq<char>,
        Failure,
    > {
        self.field_outcome(replies, signature_pointer(), missing_signature_message())
    }

    /// The request to one provider.
    fn request_to(&self, provider: &RpcProvider, text: &str) -> (request: OutboundRequest)
        ensures
            self.addresses(request, *provider, text@),
    {
        let mut headers: Vec<HttpHeader> = Vec::new();
        headers.push(
            HttpHeader {
                name: String::from_str("Content-Type"),
                value: String::from_str("application/json"),
            },
        );
        match &provider.auth_header {
            Some(header) => {
                headers.push(HttpHeader { name: header.name.clone(), value: header.value.clone() });
            },
            None => {},
        }
        let transform = match &self.transform {
            Some(name) => Some(name.clone()),
            None => None,
        };
        OutboundRequest {
            url: provider.url.clone(),
            method: HttpMethod::Post,
            headers,
            body: Some(text.as_bytes_vec()),
            max_response_bytes: self.max_response_bytes,
            max_cost: self.max_cost,
            transform,
            use_compression: self.use_compression,
        }
    }

    /// The requests that carry `rpc` to the providers: one for each, in
    /// the providers' order, all with the same body.
    pub fn requests(&self, rpc: &SolanaApiRequest) -> (requests: Vec<OutboundRequest>)
        ensures
            self.fans_out(requests@, request_text(*rpc)),
    {
        let text = rpc.to_json_string();
        let mut requests: Vec<OutboundRequest> = Vec::new();
        let mut i: usize = 0;
        while i < self.providers.len()
            invariant
                i <= self.providers.len(),
                requests@.len() == i,
                text@ == request_text(*rpc),
                forall|k: int|
                    0 <= k < i ==> self.addresses(
                        #[trigger] requests@[k],
                        self.providers@[k],
                        text@,
                    ),
            decreases self.providers.len() - i,
        {
            requests.push(self.request_to(&self.providers[i], text.as_str()));
            i += 1;
        }
        requests
    }

    /// Reconciles the replies of the providers into one body.
    ///
    /// A network failure carries the reason of the first request that did
    /// not get through.
    pub fn reconcile(&self, replies: &Vec<ProviderOutcome>) -> (outcome: Result<
        Vec<u8>,
        TransferError,
    >)
        ensures
            match self.reconciled(replies@) {
                Ok(body) => outcome is Ok && outcome->Ok_0@ == body,
                Err(failed) => outcome is Err && outcome->Err_0@ == failed,
            },
    {
        if replies.len() == 0 || replies.len() != self.providers.len() {
            return Err(
                TransferError::new(
                    ErrorCategory::Consensus,
                    "there is not one reply for each provider",
                ),
            );
        }
        let mut i: usize = 0;
        while i < replies.len()
            invariant
                i <= replies.len(),
                replies@.len() > 0,
                replies@.len() == self.providers@.len(),
                forall|k: int| 0 <= k < i ==> (#[trigger] replies@[k]) is Response,
            decreases replies.len() - i,
        {
            match &replies[i] {
                ProviderOutcome::Failure { reason } => {
                    proof {
                        let found = choose|index: int| is_first_failure(replies@, index);
                        assert(is_first_failure(replies@, i as int));
                        assert(found == i);
                    }
                    return Err(
                        TransferError {
                            category: ErrorCategory::Network,
                            message: reason.clone(),
                        },
                    );
                },
                ProviderOutcome::Response { .. } => {},
            }
            i += 1;
        }
        match &replies[0] {
            ProviderOutcome::Failure { .. } => Err(
                TransferError::new(ErrorCategory::Network, "a request did not get through"),
            ),
            ProviderOutcome::Response { body: first_body, .. } => {
                let mut j: usize = 1;
                while j < replies.len()
                    invariant
                        1 <= j <= replies.len(),
                        replies@.len() == self.providers@.len(),
                        !any_failed(replies@),
                        first_body@ == reply_body(replies@[0]),
                        forall|k: int| 0 <= k < replies@.len() ==> (#[trigger] replies@[k]) is Response,
                        forall|k: int|
                            0 <= k < j ==> reply_body(#[trigger] replies@[k]) == first_body@,
                    decreases replies.len() - j,
                {
                    match &replies[j] {
                        ProviderOutcome::Response { body, .. } => {
                            if !bytes_equal(body.as_slice(), first_body.as_slice()) {
                                return Err(
                                    TransferError::new(
                                        ErrorCategory::Consensus,
                                        "the providers' replies differ",
                                    ),
                                );
                            }
                        },
                        ProviderOutcome::Failure { .. } => {},
                    }
                    j += 1;
                }
                Ok(slice_to_vec(first_body.as_slice()))
            },
        }
    }

    /// The string under `pointer` in the reconciled reply.
    fn reconciled_field(
        &self,
        replies: &Vec<ProviderOutcome>,
        pointer: &str,
        missing: &str,
    ) -> (outcome: Result<String, TransferError>)
        ensures
            match self.field_outcome(replies@, pointer@, missing@) {
                Ok(text) => outcome is Ok && outcome->Ok_0@ == text,
                Err(failed) => outcome is Err && outcome->Err_0@ == failed,
            },
    {
        match self.reconcile(replies) {
            Err(error) => Err(error),
            Ok(body) => field_or_rpc_error(json_string_field(body.as_slice(), pointer), missing),
        }
    }

    /// The requests that ask every provider for the latest blockhash.
    pub fn latest_blockhash_requests(&self, id: u32, commitment: CommitmentLevel) -> (requests: Vec<
        OutboundRequest,
    >)
        ensures
            self.fans_out(requests@, latest_blockhash_text(id, commitment)),
    {
        let rpc = SolanaApiRequest::latest_blockhash(id, commitment);
        proof {
            lemma_latest_blockhash_text(rpc, id, commitment);
        }
        self.requests(&rpc)
    }

    /// The latest blockhash, from the providers' replies: the string under
    /// `result.value.blockhash` of the reconciled reply, exactly as the
    /// providers gave it. A reply without that string fails the call as a
    /// malformed response; a call whose replies cannot be reconciled fails
    /// as [`RpcClientConfig::reconcile`] does, with the same message.
    pub fn get_latest_blockhash(&self, replies: &Vec<ProviderOutcome>) -> (outcome: Result<
        String,
        TransferError,
    >)
        ensures
            match self.blockhash_outcome(replies@) {
                Ok(text) => outcome is Ok && outcome->Ok_0@ == text,
                Err(failed) => outcome is Err && outcome->Err_0@ == failed,
            },
    {
        self.reconciled_field(
            replies,
            "/result/value/blockhash",
            "the reply holds no blockhash",
        )
    }

    /// The requests that submit a signed transaction, given in its binary
    /// layout, to every provider.
    pub fn send_transaction_requests(&self, id: u32, signed_bytes: &[u8]) -> (requests: Vec<
        OutboundRequest,
    >)
        ensures
            self.fans_out(requests@, send_transaction_text(id, signed_bytes@)),
    {
        let rpc = SolanaApiRequest::send_transaction(id, signed_bytes);
        proof {
            lemma_send_transaction_text(rpc, id, signed_bytes@);
        }
        self.requests(&rpc)
    }

    /// The signature under which the ledger took in a transaction, from
    /// the providers' replies: the string under `result` of the reconciled
    /// reply. A reply where `result` is missing or no string fails the
    /// call as a malformed response; a call whose replies cannot be
    /// reconciled fails as [`RpcClientConfig::reconcile`] does, with the
    /// same message.
    pub fn send_transaction(&self, replies: &Vec<ProviderOutcome>) -> (outcome: Result<
        String,
        TransferError,
    >)
        ensures
            match self.signature_outcome(replies@) {
                Ok(text) => outcome is Ok && outcome->Ok_0@ == text,
                Err(failed) => outcome is Err && outcome->Err_0@ == failed,
            },
    {
        self.reconciled_field(replies, "/result", "the reply holds no signature")
    }
}

/// The text of a request for the latest blockhash, written out.
proof fn lemma_latest_blockhash_text(rpc: SolanaApiRequest, id: u32, commitment: CommitmentLevel)
    requires
        rpc.id == id,
        rpc.jsonrpc@ == "2.0"@,
        rpc.method@ == "getLatestBlockhash"@,
        rpc.params@.len() == 1,
        rpc.params@[0] is Commitment,
        rpc.params@[0]->Commitment_0.commitment@ == commitment_name(commitment),
    ensures
        request_text(rpc) == latest_blockhash_text(id, commitment),
{
    reveal_strlit("getLatestBlockhash");
    reveal_strlit("2.0");
    reveal_strlit(",\"jsonrpc\":\"");
    reveal_strlit("\",\"method\":\"");
    reveal_strlit("\",\"params\":[");
    reveal_strlit("{\"commitment\":\"");
    reveal_strlit("\"}");
    reveal_strlit("]}");
    reveal_strlit("\"}]}");
    reveal_strlit(
        ",\"jsonrpc\":\"2.0\",\"method\":\"getLatestBlockhash\",\"params\":[{\"commitment\":\"",
    );
}

/// The text of a request that submits a transaction, written out.
proof fn lemma_send_transaction_text(rpc: SolanaApiRequest, id: u32, signed_bytes: Seq<u8>)
    requires
        rpc.id == id,
        rpc.jsonrpc@ == "2.0"@,
        rpc.method@ == "sendTransaction"@,
        rpc.params@.len() == 1,
        rpc.params@[0] is Transaction,
        rpc.params@[0]->Transaction_0@ == base58_encoding(signed_bytes),
    ensures
        request_text(rpc) == send_transaction_text(id, signed_bytes),
{
    reveal_strlit("sendTransaction");
    reveal_strlit("2.0");
    reveal_strlit(",\"jsonrpc\":\"");
    reveal_strlit("\",\"method\":\"");
    reveal_strlit("\",\"params\":[");
    reveal_strlit("]}");
    reveal_strlit(",\"jsonrpc\":\"2.0\",\"method\":\"sendTransaction\",\"params\":[");
}

/// With one provider, the latest blockhash is exactly the string under
/// `result.value.blockhash` of that provider's reply, and the call fails
/// as a malformed response where the reply holds no such string.
pub proof fn lemma_single_provider_blockhash(config: RpcClientConfig, replies: Seq<ProviderOutcome>)
    requires
        config.providers@.len() == 1,
        replies.len() == 1,
        replies[0] is Response,
    ensures
        config.blockhash_outcome(replies) == (match string_field(
            reply_body(replies[0]),
            blockhash_pointer(),
        ) {
            Some(text) => Ok::<Seq<char>, Failure>(text),
            None => Err::<Seq<char>, Failure>(
                failure(ErrorCategory::Rpc, missing_blockhash_message()),
            ),
        }),
{
}

/// With one provider whose request did not get through, every call fails
/// as a network failure that carries the reason.
pub proof fn lemma_single_provider_failure(
    config: RpcClientConfig,
    replies: Seq<ProviderOutcome>,
    pointer: Seq<char>,
    missing: Seq<char>,
)
    requires
        config.providers@.len() == 1,
        replies.len() == 1,
        replies[0] is Failure,
    ensures
        config.field_outcome(replies, pointer, missing) == Err::<Seq<char>, Failure>(
            failure(ErrorCategory::Network, replies[0]->reason@),
        ),
{
    let found = choose|index: int| is_first_failure(replies, index);
    assert(is_first_failure(replies, 0));
    assert(found == 0);
}

/// With two providers that both reply, but not with the same bytes, every
/// call fails as a consensus failure.
pub proof fn lemma_disagreement_fails(
    config: RpcClientConfig,
    replies: Seq<ProviderOutcome>,
    pointer: Seq<char>,
    missing: Seq<char>,
)
    requires
        config.providers@.len() == 2,
        replies.len() == 2,
        replies[0] is Response,
        replies[1] is Response,
        reply_body(replies[0]) != reply_body(replies[1]),
    ensures
        config.reconciled(replies) == Err::<Seq<u8>, Failure>(
            failure(ErrorCategory::Consensus, differing_message()),
        ),
        config.field_outcome(replies, pointer, missing) == Err::<Seq<char>, Failure>(
            failure(ErrorCategory::Consensus, differing_message()),
        ),
{
    assert(!all_agree(replies));
}

} // verus!
