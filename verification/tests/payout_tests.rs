use solana_bridge::error::ErrorCategory;
use solana_bridge::payout::{
    read_reply_result, PaymentAction, PaymentState, PAYOUT_REQUEST_COST,
};
use solana_bridge::razorpay::{basic_authorization, basic_credentials, Config};
use solana_bridge::rpc::{HttpHeader, HttpMethod, OutboundRequest, ProviderOutcome};
use solana_bridge::text::parse_byte_list;

fn config() -> Config {
    Config::new("Basic a2V5".to_string(), "idem".to_string())
}

fn result(text: &str) -> ProviderOutcome {
    ProviderOutcome::Response {
        status: 200,
        body: format!("{{\"result\":\"{}\"}}", text).into_bytes(),
    }
}

fn posted(url: &str, body: Option<&str>) -> PaymentAction {
    PaymentAction::Send {
        request: OutboundRequest {
            url: url.to_string(),
            method: HttpMethod::Post,
            headers: vec![
                HttpHeader {
                    name: "Content-Type".to_string(),
                    value: "application/json".to_string(),
                },
                HttpHeader { name: "Authorization".to_string(), value: "Basic a2V5".to_string() },
            ],
            body: body.map(|text| text.as_bytes().to_vec()),
            max_response_bytes: None,
            max_cost: PAYOUT_REQUEST_COST,
            transform: None,
            use_compression: false,
        },
    }
}

fn start() -> (PaymentState, PaymentAction) {
    config().pay(
        "Asha".to_string(),
        "asha@example.com".to_string(),
        "9000000000".to_string(),
        "1121431121541121".to_string(),
        "HDFC0000053".to_string(),
        5000,
    )
}

#[test]
fn payout_runs_through_its_four_requests() {
    let (state, action) = start();
    assert_eq!(
        action,
        posted(
            "https://api.razorpay.com/v1/contacts",
            Some("{\"name\":\"Asha\",\"email\":\"asha@example.com\",\"contact\":\"9000000000\",\"type\":\"customer\"}")
        )
    );
    assert_eq!(
        state,
        PaymentState::ContactRequested {
            name: "Asha".to_string(),
            account_number: "1121431121541121".to_string(),
            ifsc: "HDFC0000053".to_string(),
            amount: 5000,
        }
    );

    let (state, action) = config().pay_step(state, &result("cont_9"));
    assert_eq!(
        action,
        posted(
            "https://api.razorpay.com/v1/fund_accounts",
            Some("{\"contact_id\":\"cont_9\",\"account_type\":\"bank_account\",\"bank_account\":{\"name\":\"Asha\",\"account_number\":\"1121431121541121\",\"ifsc\":\"HDFC0000053\"}}")
        )
    );
    assert_eq!(
        state,
        PaymentState::FundAccountRequested {
            account_number: "1121431121541121".to_string(),
            amount: 5000,
        }
    );

    let (state, action) = config().pay_step(state, &result("fa_3"));
    assert_eq!(
        action,
        posted(
            "https://api.razorpay.com/v1/payouts",
            Some("{\"account_number\":\"1121431121541121\",\"fund_account_id\":\"fa_3\",\"amount\":5000,\"currency\":\"INR\",\"mode\":\"IMPS\",\"purpose\":\"payout\"}")
        )
    );
    assert_eq!(state, PaymentState::PayoutRequested);

    let (state, action) = config().pay_step(state, &result("pout_7"));
    assert_eq!(action, posted("https://api.razorpay.com/v1//payouts/pout_7/approve", None));
    assert_eq!(state, PaymentState::ApprovalRequested);

    let (state, action) = config().pay_step(state, &result("processed"));
    assert_eq!(action, PaymentAction::Finish);
    assert_eq!(state, PaymentState::Paid { result: "processed".to_string() });

    let (state, action) = config().pay_step(state, &result("again"));
    assert_eq!(action, PaymentAction::Finish);
    assert_eq!(state, PaymentState::Paid { result: "processed".to_string() });
}

#[test]
fn payout_stops_at_the_first_failure() {
    let lost = ProviderOutcome::Failure { reason: "timeout".to_string() };
    let empty = ProviderOutcome::Response { status: 200, body: b"{\"id\":\"x\"}".to_vec() };
    let states = [
        start().0,
        PaymentState::FundAccountRequested { account_number: "1".to_string(), amount: 1 },
        PaymentState::PayoutRequested,
        PaymentState::ApprovalRequested,
    ];
    for state in states {
        let (next, action) = config().pay_step(state.clone(), &lost);
        assert_eq!(action, PaymentAction::Finish);
        match &next {
            PaymentState::Failed { error } => {
                assert_eq!(error.category, ErrorCategory::Network);
                assert_eq!(error.message, "timeout");
            }
            other => panic!("{:?}", other),
        }
        let (again, action) = config().pay_step(next.clone(), &result("late"));
        assert_eq!(again, next);
        assert_eq!(action, PaymentAction::Finish);
        let (next, action) = config().pay_step(state, &empty);
        assert_eq!(action, PaymentAction::Finish);
        match next {
            PaymentState::Failed { error } => assert_eq!(error.category, ErrorCategory::Rpc),
            other => panic!("{:?}", other),
        }
    }
}

#[test]
fn reply_result_is_the_string_under_result() {
    assert_eq!(read_reply_result(&result("abc")).unwrap(), "abc");
    let number = ProviderOutcome::Response { status: 200, body: b"{\"result\":5}".to_vec() };
    assert_eq!(read_reply_result(&number).unwrap_err().category, ErrorCategory::Rpc);
    let broken = ProviderOutcome::Response { status: 200, body: b"{\"result\":\"a".to_vec() };
    assert_eq!(read_reply_result(&broken).unwrap_err().category, ErrorCategory::Rpc);
}

#[test]
fn byte_lists_are_read_between_commas() {
    assert_eq!(parse_byte_list("12,0,255"), Some(vec![12, 0, 255]));
    assert_eq!(parse_byte_list("7"), Some(vec![7]));
    assert_eq!(parse_byte_list("+7,007,000"), Some(vec![7, 7, 0]));
    let keypair: Vec<String> = (0..64).map(|i| (i * 4).to_string()).collect();
    assert_eq!(
        parse_byte_list(&keypair.join(",")),
        Some((0..64).map(|i| (i * 4) as u8).collect())
    );
}

#[test]
fn malformed_byte_lists_are_not_read() {
    for text in [
        "", ",", "1,", ",1", "1,,2", "256", "1000", "99999999999999999999", "-1", "+", "1 ,2",
        " 1", "1,2 ", "a", "1,b", "0x10", "1.0", "++1", "1+", "٣",
    ] {
        assert_eq!(parse_byte_list(text), None, "{:?}", text);
    }
}

#[test]
fn byte_lists_are_read_as_the_standard_library_reads_numbers() {
    for text in ["0", "255", "256", "+255", "+256", "00255", "-0", "", "+", "25 ", "2_5", "1e1"] {
        assert_eq!(parse_byte_list(text), text.parse::<u8>().ok().map(|byte| vec![byte]), "{:?}", text);
    }
}

#[test]
fn credentials_are_the_two_keys_in_base_64() {
    assert_eq!(basic_credentials("rzp_test_key", "secret"), "cnpwX3Rlc3Rfa2V5OnNlY3JldA==");
    assert_eq!(basic_credentials("a", "b"), "YTpi");
    assert_eq!(basic_credentials("", ""), "Og==");
    assert_eq!(basic_authorization("YTpi"), "Basic YTpi");
}
