use solana_bridge::error::ErrorCategory;
use solana_bridge::json::json_string;
use solana_bridge::orders::{
    create_order_request, read_reply_id, treasury_order_request, write_contact,
    write_fund_account, write_payout, PayoutClient, PayoutState, CONTACT_REQUEST_COST,
    FUND_ACCOUNT_REQUEST_COST, ORDER_REQUEST_COST, PAYOUT_CREATION_COST, TREASURY_ORDER_COST,
};
use solana_bridge::price::{price_request, PRICE_REQUEST_COST};
use solana_bridge::payout::PaymentAction;
use solana_bridge::razorpay::PayoutArgs;
use solana_bridge::rpc::{HttpHeader, HttpMethod, OutboundRequest, ProviderOutcome};

fn object(members: Vec<(&str, serde_json::Value)>) -> serde_json::Value {
    serde_json::Value::Object(
        members.into_iter().map(|(name, value)| (name.to_string(), value)).collect(),
    )
}

fn posted(url: &str, body: &str, cost: u128) -> OutboundRequest {
    OutboundRequest {
        url: url.to_string(),
        method: HttpMethod::Post,
        headers: vec![
            HttpHeader { name: "Content-Type".to_string(), value: "application/json".to_string() },
            HttpHeader { name: "Authorization".to_string(), value: "Basic YTpi".to_string() },
        ],
        body: Some(body.as_bytes().to_vec()),
        max_response_bytes: None,
        max_cost: cost,
        transform: None,
        use_compression: false,
    }
}

fn with_id(id: &str) -> ProviderOutcome {
    ProviderOutcome::Response { status: 200, body: format!("{{\"id\":\"{}\"}}", id).into_bytes() }
}

fn client() -> PayoutClient {
    PayoutClient { account: "7878780080316316".to_string(), credentials: "YTpi".to_string() }
}

fn args() -> PayoutArgs {
    PayoutArgs {
        name: "Asha".to_string(),
        email: "asha@example.com".to_string(),
        contact: "9000000000".to_string(),
        ifsc: "HDFC0000053".to_string(),
        account_number: "1121431121541121".to_string(),
        amount: 5000,
    }
}

#[test]
fn text_is_written_as_a_json_string() {
    assert_eq!(json_string("abc"), "\"abc\"");
    assert_eq!(json_string(""), "\"\"");
    assert_eq!(json_string("a\"b\\c\n"), "\"a\\\"b\\\\c\\n\"");
    assert_eq!(json_string("é\u{1}"), "\"é\\u0001\"");
    assert_eq!(json_string("\u{8}\t\n\u{c}\r"), "\"\\b\\t\\n\\f\\r\"");
    assert_eq!(json_string("\u{0}\u{b}\u{1f}\u{7f}/"), "\"\\u0000\\u000b\\u001f\u{7f}/\"");
}

#[test]
fn order_request_has_its_exact_form() {
    assert_eq!(
        create_order_request(1200, "YTpi"),
        posted("https://api.razorpay.com/v1/orders", "{\"amount\":1200,\"currency\":\"INR\"}", ORDER_REQUEST_COST)
    );
    assert_eq!(ORDER_REQUEST_COST, 1_603_131_200);
}

#[test]
fn records_are_written_as_the_json_library_writes_them() {
    let name = "A \"quoted\" name";
    let contact = write_contact("9000000000", "a\\b@example.com", name);
    let expected = object(vec![
        ("name", name.into()),
        ("email", "a\\b@example.com".into()),
        ("contact", "9000000000".into()),
    ]);
    assert_eq!(contact, serde_json::to_string(&expected).unwrap());

    let fund_account = write_fund_account("112", "HDFC\n", name, "cont_1");
    let expected = object(vec![
        ("contact_id", "cont_1".into()),
        ("account_type", "bank_account".into()),
        (
            "bank_account",
            object(vec![
                ("ifsc", "HDFC\n".into()),
                ("name", name.into()),
                ("account_number", "112".into()),
            ]),
        ),
    ]);
    assert_eq!(fund_account, serde_json::to_string(&expected).unwrap());

    let payout = write_payout("787", u64::MAX, "fa_\u{7f}");
    let expected = object(vec![
        ("fund_account_id", "fa_\u{7f}".into()),
        ("account_number", "787".into()),
        ("amount", u64::MAX.into()),
        ("currency", "INR".into()),
        ("mode", "IMPS".into()),
        ("purpose", "payout".into()),
    ]);
    assert_eq!(payout, serde_json::to_string(&expected).unwrap());
}

#[test]
fn account_payout_runs_through_its_three_requests() {
    let (state, action) = client().payout(args());
    assert_eq!(
        action,
        PaymentAction::Send {
            request: posted(
                "https://api.razorpay.com/v1/contacts",
                "{\"contact\":\"9000000000\",\"email\":\"asha@example.com\",\"name\":\"Asha\"}",
                CONTACT_REQUEST_COST
            )
        }
    );
    assert_eq!(
        state,
        PayoutState::ContactRequested {
            name: "Asha".to_string(),
            ifsc: "HDFC0000053".to_string(),
            account_number: "1121431121541121".to_string(),
            amount: 5000,
        }
    );

    let (state, action) = client().payout_step(state, &with_id("cont_9"));
    assert_eq!(
        action,
        PaymentAction::Send {
            request: posted(
                "https://api.razorpay.com/v1/fund_accounts",
                "{\"account_type\":\"bank_account\",\"bank_account\":{\"account_number\":\"1121431121541121\",\"ifsc\":\"HDFC0000053\",\"name\":\"Asha\"},\"contact_id\":\"cont_9\"}",
                FUND_ACCOUNT_REQUEST_COST
            )
        }
    );
    assert_eq!(state, PayoutState::FundAccountRequested { amount: 5000 });

    let (state, action) = client().payout_step(state, &with_id("fa_3"));
    assert_eq!(
        action,
        PaymentAction::Send {
            request: posted(
                "https://api.razorpay.com/v1/payouts",
                "{\"account_number\":\"7878780080316316\",\"amount\":5000,\"currency\":\"INR\",\"fund_account_id\":\"fa_3\",\"mode\":\"IMPS\",\"purpose\":\"payout\"}",
                PAYOUT_CREATION_COST
            )
        }
    );
    assert_eq!(state, PayoutState::PayoutRequested);

    let (state, action) = client().payout_step(state, &with_id("pout_7"));
    assert_eq!(action, PaymentAction::Finish);
    assert_eq!(state, PayoutState::Created { payout_id: "pout_7".to_string() });

    let (state, action) = client().payout_step(state, &with_id("late"));
    assert_eq!(action, PaymentAction::Finish);
    assert_eq!(state, PayoutState::Created { payout_id: "pout_7".to_string() });
}

#[test]
fn account_payout_stops_at_the_first_failure() {
    let lost = ProviderOutcome::Failure { reason: "timeout".to_string() };
    let empty = ProviderOutcome::Response { status: 200, body: b"{\"result\":\"x\"}".to_vec() };
    let states = [
        (client().payout(args()).0, "Error creating contact: timeout"),
        (PayoutState::FundAccountRequested { amount: 1 }, "Error creating fund account: timeout"),
        (PayoutState::PayoutRequested, "Error creating payout: timeout"),
    ];
    for (state, message) in states {
        let (next, action) = client().payout_step(state.clone(), &lost);
        assert_eq!(action, PaymentAction::Finish);
        match &next {
            PayoutState::Failed { error } => {
                assert_eq!(error.category, ErrorCategory::Network);
                assert_eq!(error.message, message);
            }
            other => panic!("{:?}", other),
        }
        let (again, action) = client().payout_step(next.clone(), &with_id("late"));
        assert_eq!(again, next);
        assert_eq!(action, PaymentAction::Finish);
        let (next, action) = client().payout_step(state, &empty);
        assert_eq!(action, PaymentAction::Finish);
        match next {
            PayoutState::Failed { error } => assert_eq!(error.category, ErrorCategory::Rpc),
            other => panic!("{:?}", other),
        }
    }
}

#[test]
fn identifier_is_the_string_under_id() {
    assert_eq!(read_reply_id(&with_id("order_1"), "order").unwrap(), "order_1");
    let number = ProviderOutcome::Response { status: 200, body: b"{\"id\":5}".to_vec() };
    assert_eq!(read_reply_id(&number, "order").unwrap_err().category, ErrorCategory::Rpc);
    let lost = ProviderOutcome::Failure { reason: "reset".to_string() };
    let error = read_reply_id(&lost, "order").unwrap_err();
    assert_eq!(error.category, ErrorCategory::Network);
    assert_eq!(error.message, "Error creating order: reset");
}

fn escaped(c: char) -> String {
    match c {
        '"' => "\\\"".to_string(),
        '\\' => "\\\\".to_string(),
        '\u{8}' => "\\b".to_string(),
        '\t' => "\\t".to_string(),
        '\n' => "\\n".to_string(),
        '\u{c}' => "\\f".to_string(),
        '\r' => "\\r".to_string(),
        c if (c as u32) < 0x20 => format!("\\u00{:02x}", c as u32),
        c => c.to_string(),
    }
}

#[test]
fn every_character_is_escaped_by_the_stated_table() {
    let mut all = String::new();
    let mut expected = String::from("\"");
    for code in 0u32..0x11_0000 {
        if let Some(c) = char::from_u32(code) {
            if code < 0x3000 {
                assert_eq!(json_string(&c.to_string()), format!("\"{}\"", escaped(c)), "U+{:04X}", code);
            }
            all.push(c);
            expected.push_str(&escaped(c));
        }
    }
    expected.push('"');
    assert_eq!(json_string(&all), expected);
}

#[test]
fn treasury_order_request_has_its_exact_form() {
    let request = treasury_order_request(2500, "Basic YTpi");
    let mut expected = posted(
        "https://api.razorpay.com/v1/orders",
        "{\"amount\":2500,\"currency\":\"INR\"}",
        TREASURY_ORDER_COST,
    );
    expected.headers[0].name = "content-type".to_string();
    assert_eq!(request, expected);
    assert_eq!(TREASURY_ORDER_COST, 1_803_143_600);
}

#[test]
fn price_request_spans_a_minute_either_side() {
    let request = price_request(1_700_000_000).unwrap();
    assert_eq!(
        request.url,
        "https://api.exchange.coinbase.com/products/SOL-USD/candles?start=1699999940&end=1700000060&granularity=60"
    );
    assert_eq!(request.method, HttpMethod::Get);
    assert_eq!(
        request.headers,
        vec![HttpHeader {
            name: "User-Agent".to_string(),
            value: "exchange_rate_canister".to_string()
        }]
    );
    assert_eq!(request.body, None);
    assert_eq!(request.max_response_bytes, None);
    assert_eq!(request.max_cost, PRICE_REQUEST_COST);
    assert_eq!(PRICE_REQUEST_COST, 1_603_114_800);
    assert_eq!(request.transform, None);
    assert!(!request.use_compression);
}

#[test]
fn price_request_exists_exactly_a_minute_inside_the_range() {
    assert_eq!(price_request(0), None);
    assert_eq!(price_request(59), None);
    assert!(price_request(60).unwrap().url.contains("start=0&end=120&"));
    assert!(price_request(u64::MAX - 60)
        .unwrap()
        .url
        .contains("start=18446744073709551495&end=18446744073709551615&"));
    assert_eq!(price_request(u64::MAX - 59), None);
    assert_eq!(price_request(u64::MAX), None);
}
