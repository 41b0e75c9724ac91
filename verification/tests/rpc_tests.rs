use solana_bridge::error::{ErrorCategory, TransferError};
use solana_bridge::json::json_string_field;
use solana_bridge::request::{CommitmentLevel, SolanaApiRequest};
use solana_bridge::rpc::{
    field_or_rpc_error, ConsensusStrategy, HttpHeader, HttpMethod, ProviderOutcome,
    RpcClientConfig, RpcProvider,
};

fn provider(url: &str) -> RpcProvider {
    RpcProvider { url: url.to_string(), auth_header: None }
}

fn config_with(providers: Vec<RpcProvider>) -> RpcClientConfig {
    RpcClientConfig {
        providers,
        consensus: ConsensusStrategy::Equality,
        max_response_bytes: Some(2048),
        max_cost: 1_803_143_600,
        transform: None,
        use_compression: false,
    }
}

fn one_provider() -> RpcClientConfig {
    config_with(vec![provider("https://api.devnet.solana.com")])
}

fn two_providers() -> RpcClientConfig {
    config_with(vec![provider("https://one.example"), provider("https://two.example")])
}

fn reply(body: &str) -> ProviderOutcome {
    ProviderOutcome::Response { status: 200, body: body.as_bytes().to_vec() }
}

fn failure(reason: &str) -> ProviderOutcome {
    ProviderOutcome::Failure { reason: reason.to_string() }
}

const BLOCKHASH_REPLY: &str = "{\"jsonrpc\":\"2.0\",\"result\":{\"context\":{\"slot\":2792},\"value\":{\"blockhash\":\"EkSnNWid2cvwEVnVx9aBqawnmiCNiDgp3gUdkDPTKN1N\",\"lastValidBlockHeight\":3090}},\"id\":1}";

#[test]
fn one_provider_gives_exactly_its_blockhash() {
    let outcome = one_provider().get_latest_blockhash(&vec![reply(BLOCKHASH_REPLY)]);
    assert_eq!(outcome.unwrap(), "EkSnNWid2cvwEVnVx9aBqawnmiCNiDgp3gUdkDPTKN1N");
    // Whatever the string is, it comes back as it stands.
    let odd = "{\"result\":{\"value\":{\"blockhash\":\" not base-58 \\u00e9 \"}}}";
    assert_eq!(one_provider().get_latest_blockhash(&vec![reply(odd)]).unwrap(), " not base-58 é ");
    let empty = "{\"result\":{\"value\":{\"blockhash\":\"\"}}}";
    assert_eq!(one_provider().get_latest_blockhash(&vec![reply(empty)]).unwrap(), "");
}

#[test]
fn two_providers_that_differ_are_a_consensus_failure() {
    let other = BLOCKHASH_REPLY.replace("2792", "2793");
    let replies = vec![reply(BLOCKHASH_REPLY), reply(&other)];
    let expected = TransferError::new(ErrorCategory::Consensus, "the providers' replies differ");
    assert_eq!(two_providers().reconcile(&replies).unwrap_err(), expected);
    assert_eq!(two_providers().get_latest_blockhash(&replies).unwrap_err(), expected);
    assert_eq!(two_providers().send_transaction(&replies).unwrap_err(), expected);
}

#[test]
fn two_providers_that_agree_give_their_reply() {
    let replies = vec![reply(BLOCKHASH_REPLY), reply(BLOCKHASH_REPLY)];
    assert_eq!(two_providers().reconcile(&replies).unwrap(), BLOCKHASH_REPLY.as_bytes());
    assert_eq!(
        two_providers().get_latest_blockhash(&replies).unwrap(),
        "EkSnNWid2cvwEVnVx9aBqawnmiCNiDgp3gUdkDPTKN1N"
    );
}

#[test]
fn replies_are_compared_by_their_bodies_alone() {
    let replies = vec![
        ProviderOutcome::Response { status: 200, body: b"{}".to_vec() },
        ProviderOutcome::Response { status: 203, body: b"{}".to_vec() },
    ];
    assert_eq!(two_providers().reconcile(&replies).unwrap(), b"{}");
    let replies = vec![
        ProviderOutcome::Response { status: 200, body: b"{}".to_vec() },
        ProviderOutcome::Response { status: 200, body: b"{} ".to_vec() },
    ];
    assert_eq!(two_providers().reconcile(&replies).unwrap_err().category, ErrorCategory::Consensus);
}

#[test]
fn null_result_is_an_rpc_failure() {
    let replies = vec![reply("{\"result\": null}")];
    let error = one_provider().get_latest_blockhash(&replies).unwrap_err();
    assert_eq!(error, TransferError::new(ErrorCategory::Rpc, "the reply holds no blockhash"));
    let error = one_provider().send_transaction(&replies).unwrap_err();
    assert_eq!(error, TransferError::new(ErrorCategory::Rpc, "the reply holds no signature"));
}

#[test]
fn missing_or_malformed_fields_are_rpc_failures() {
    for body in [
        "",
        "not json",
        "{}",
        "[]",
        "{\"result\":{\"value\":{}}}",
        "{\"result\":{\"value\":{\"blockhash\":7}}}",
        "{\"result\":{\"value\":[\"blockhash\"]}}",
        "{\"result\":\"EkSnNWid2cvwEVnVx9aBqawnmiCNiDgp3gUdkDPTKN1N\"}",
        "{\"error\":{\"code\":-32002,\"message\":\"failed\"},\"id\":1}",
        "{\"result\":{\"value\":{\"blockhash\":\"x\"}}} trailing",
    ] {
        let error = one_provider().get_latest_blockhash(&vec![reply(body)]).unwrap_err();
        assert_eq!(error.category, ErrorCategory::Rpc, "{}", body);
    }
    for body in ["{\"result\":5}", "{\"result\":{\"value\":1}}", "{\"result\":[\"sig\"]}", "{"] {
        let error = one_provider().send_transaction(&vec![reply(body)]).unwrap_err();
        assert_eq!(error.category, ErrorCategory::Rpc, "{}", body);
    }
}

#[test]
fn send_transaction_gives_the_result_string() {
    let body = "{\"jsonrpc\":\"2.0\",\"result\":\"2id3YC2jK9G5Wo2phDx4gJVAew8DcY5NAojnVuao8rkxwPYPe8cSwE5GzhEgJA2y8fVjDEo6iR6ykBvDxrTQrtpb\",\"id\":1}";
    assert_eq!(
        one_provider().send_transaction(&vec![reply(body)]).unwrap(),
        "2id3YC2jK9G5Wo2phDx4gJVAew8DcY5NAojnVuao8rkxwPYPe8cSwE5GzhEgJA2y8fVjDEo6iR6ykBvDxrTQrtpb"
    );
}

#[test]
fn transport_failure_is_a_network_failure_with_its_reason() {
    let error = one_provider().get_latest_blockhash(&vec![failure("timeout")]).unwrap_err();
    assert_eq!(error.category, ErrorCategory::Network);
    assert_eq!(error.message, "timeout");
    let error = one_provider().send_transaction(&vec![failure("reset by peer")]).unwrap_err();
    assert_eq!(error, TransferError::new(ErrorCategory::Network, "reset by peer"));
    let replies = vec![reply(BLOCKHASH_REPLY), failure("second"), failure("third")];
    let three = config_with(vec![provider("a"), provider("b"), provider("c")]);
    let error = three.get_latest_blockhash(&replies).unwrap_err();
    assert_eq!(error, TransferError::new(ErrorCategory::Network, "second"));
    let replies = vec![reply(BLOCKHASH_REPLY), failure("connection refused")];
    let error = two_providers().reconcile(&replies).unwrap_err();
    assert_eq!(error.category, ErrorCategory::Network);
    assert_eq!(error.message, "connection refused");
    let replies = vec![failure("first"), failure("second")];
    let error = two_providers().reconcile(&replies).unwrap_err();
    assert_eq!(error.category, ErrorCategory::Network);
    assert_eq!(error.message, "first");
}

#[test]
fn replies_must_number_the_providers() {
    assert_eq!(
        one_provider().reconcile(&vec![]).unwrap_err(),
        TransferError::new(ErrorCategory::Consensus, "there is not one reply for each provider")
    );
    assert_eq!(
        two_providers().reconcile(&vec![reply("{}")]).unwrap_err().category,
        ErrorCategory::Consensus
    );
    assert_eq!(
        one_provider().reconcile(&vec![reply("{}"), reply("{}")]).unwrap_err().category,
        ErrorCategory::Consensus
    );
    assert_eq!(
        config_with(vec![]).reconcile(&vec![]).unwrap_err().category,
        ErrorCategory::Consensus
    );
}

#[test]
fn every_provider_is_sent_the_same_request() {
    let mut config = two_providers();
    config.providers[1].auth_header =
        Some(HttpHeader { name: "Authorization".to_string(), value: "Bearer t".to_string() });
    config.transform = Some("strip_headers".to_string());
    config.use_compression = true;
    let rpc = SolanaApiRequest::latest_blockhash(1, CommitmentLevel::Finalized);
    let requests = config.requests(&rpc);
    assert_eq!(requests.len(), 2);
    let content_type =
        HttpHeader { name: "Content-Type".to_string(), value: "application/json".to_string() };
    assert_eq!(requests[0].url, "https://one.example");
    assert_eq!(requests[1].url, "https://two.example");
    assert_eq!(requests[0].headers, vec![content_type.clone()]);
    assert_eq!(
        requests[1].headers,
        vec![
            content_type,
            HttpHeader { name: "Authorization".to_string(), value: "Bearer t".to_string() }
        ]
    );
    for request in &requests {
        assert_eq!(request.method, HttpMethod::Post);
        assert_eq!(request.body, Some(rpc.to_json_string().into_bytes()));
        assert_eq!(request.max_response_bytes, Some(2048));
        assert_eq!(request.max_cost, 1_803_143_600);
        assert_eq!(request.transform, Some("strip_headers".to_string()));
        assert!(request.use_compression);
    }
    assert_eq!(config.latest_blockhash_requests(1, CommitmentLevel::Finalized), requests);
    assert_eq!(config_with(vec![]).requests(&rpc), vec![]);
}

#[test]
fn send_transaction_requests_carry_the_transaction() {
    let requests = one_provider().send_transaction_requests(1, &[0, 0, 1]);
    assert_eq!(requests.len(), 1);
    assert_eq!(
        requests[0].body,
        Some(
            b"{\"id\":1,\"jsonrpc\":\"2.0\",\"method\":\"sendTransaction\",\"params\":[\"112\"]}"
                .to_vec()
        )
    );
}

#[test]
fn strings_are_found_by_json_pointer() {
    let body = b"{\"id\":\"cont_1\",\"nested\":{\"list\":[\"a\",\"b\"]},\"n\":1}";
    assert_eq!(json_string_field(body, "/id"), Some("cont_1".to_string()));
    assert_eq!(json_string_field(body, "/nested/list/1"), Some("b".to_string()));
    assert_eq!(json_string_field(body, "/nested/list/2"), None);
    assert_eq!(json_string_field(body, "/n"), None);
    assert_eq!(json_string_field(body, "/nested"), None);
    assert_eq!(json_string_field(body, "id"), None);
    assert_eq!(json_string_field(b"\"whole\"", ""), Some("whole".to_string()));
    assert_eq!(json_string_field(b"{\"id\":", "/id"), None);
}

#[test]
fn found_field_is_the_result_and_missing_field_an_rpc_failure() {
    assert_eq!(field_or_rpc_error(Some("abc".to_string()), "none"), Ok("abc".to_string()));
    let error = field_or_rpc_error(None, "the reply holds no blockhash").unwrap_err();
    assert_eq!(error.category, ErrorCategory::Rpc);
    assert_eq!(error.message, "the reply holds no blockhash");
}
