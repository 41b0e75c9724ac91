//! Orders and account payouts at the fiat payout provider, made under
//! basic credentials: the requests, and what is read from the replies.
//!
//! The machine decides; the host sends each request and hands back what
//! came of it.

use vstd::prelude::*;
use vstd::utf8::encode_utf8;
use crate::error::{failure, ErrorCategory, Failure, TransferError};
use crate::json::{json_string, json_string_field, json_string_text, string_field};
use crate::payout::{contacts_url, fund_accounts_url, payouts_url, PaymentAction};
use crate::razorpay::{authorization_text, basic_authorization, PayoutArgs};
use crate::rpc::{
    field_or_rpc_error, header_is, HttpHeader, HttpMethod, OutboundRequest, ProviderOutcome,
};
use crate::text::{decimal_digits, decimal_text};

verus! {

/// The most that the request for an order may cost.
pub const ORDER_REQUEST_COST: u128 = 1_603_131_200;

/// The most that the request for a contact may cost.
pub const CONTACT_REQUEST_COST: u128 = 1_603_150_400;

/// The most that the request for a fund account may cost.
pub const FUND_ACCOUNT_REQUEST_COST: u128 = 1_603_184_000;

/// The most that the request for a payout may cost.
pub const PAYOUT_CREATION_COST: u128 = 1_603_172_400;

/// The most that the request for an order into the treasury may cost.
pub const TREASURY_ORDER_COST: u128 = 1_803_143_600;

/// A client of the payout provider: the account that payouts are made
/// from, and the credentials under which requests are made.
#[derive(Clone, Debug, PartialEq, Eq)]
pub struct PayoutClient {
    pub account: String,
    pub credentials: String,
}

/// Where an account payout stands.
#[derive(Clone, Debug, PartialEq, Eq)]
pub enum PayoutState {
    /// The contact is asked for; the rest waits.
    ContactRequested { name: String, ifsc: String, account_number: String, amount: u64 },
    /// The fund account is asked for; the payout waits.
    FundAccountRequested { amount: u64 },
    /// The payout is asked for.
    PayoutRequested,
    /// The payout is made, under this identifier.
    Created { payout_id: String },
    /// The payout failed; nothing more is done.
    Failed { error: TransferError },
}

/// The address at which orders are made.
pub open spec fn orders_url() -> Seq<char> {
    "https://api.razorpay.com/v1/orders"@
}

/// The text of an order of `amount` in rupees.
pub open spec fn order_body(amount: u64) -> Seq<char> {
    "{\"amount\":"@ + decimal_digits(amount as nat) + ",\"currency\":\"INR\"}"@
}

/// The text of a contact, from its members as JSON strings.
pub open spec fn contact_body(contact: Seq<char>, email: Seq<char>, name: Seq<char>) -> Seq<char> {
    "{\"contact\":"@ + contact + ",\"email\":"@ + email + ",\"name\":"@ + name + "}"@
}

/// The text of a fund account, from its members as JSON strings.
pub open spec fn fund_account_body(
    account_number: Seq<char>,
    ifsc: Seq<char>,
    name: Seq<char>,
    contact_id: Seq<char>,
) -> Seq<char> {
    "{\"account_type\":\"bank_account\",\"bank_account\":{\"account_number\":"@ + account_number
        + ",\"ifsc\":"@ + ifsc + ",\"name\":"@ + name + "},\"contact_id\":"@ + contact_id + "}"@
}

/// The text of a payout of `amount` in rupees by IMPS, from its other
/// members as JSON strings.
pub open spec fn payout_body(account: Seq<char>, amount: u64, fund_account_id: Seq<char>) -> Seq<
    char,
> {
    "{\"account_number\":"@ + account + ",\"amount\":"@ + decimal_digits(amount as nat)
        + ",\"currency\":\"INR\",\"fund_account_id\":"@ + fund_account_id
        + ",\"mode\":\"IMPS\",\"purpose\":\"payout\"}"@
}

/// The text of a contact with the given members.
pub open spec fn contact_text_for(contact: Seq<char>, email: Seq<char>, name: Seq<char>) -> Seq<
    char,
> {
    contact_body(json_string_text(contact), json_string_text(email), json_string_text(name))
}

/// The text of a fund account with the given members.
pub open spec fn fund_account_text_for(
    account_number: Seq<char>,
    ifsc: Seq<char>,
    name: Seq<char>,
    contact_id: Seq<char>,
) -> Seq<char> {
    fund_account_body(
        json_string_text(account_number),
        json_string_text(ifsc),
        json_string_text(name),
        json_string_text(contact_id),
    )
}

/// The text of a payout with the given members.
pub open spec fn payout_text_for(
    account: Seq<char>,
    amount: u64,
    fund_account_id: Seq<char>,
) -> Seq<char> {
    payout_body(json_string_text(account), amount, json_string_text(fund_account_id))
}

/// The message of the failure to make `what`, for the given reason.
pub open spec fn creation_failed_message(what: Seq<char>, reason: Seq<char>) -> Seq<char> {
    "Error creating "@ + what + ": "@ + reason
}

/// The message of the failure to read an identifier from a reply that
/// holds none.
pub open spec fn missing_identifier_message() -> Seq<char> {
    "the reply holds no identifier"@
}

/// What a reply gives where the identifier of a new record is read: the
/// string under `id`; a network failure where the request did not get
/// through, which says what was being made and why it was not; a
/// malformed response where there is no such string.
pub open spec fn reply_id(reply: ProviderOutcome, what: Seq<char>) -> Result<Seq<char>, Failure> {
    match reply {
        ProviderOutcome::Failure { reason } => Err(
            failure(ErrorCategory::Network, creation_failed_message(what, reason@)),
        ),
        ProviderOutcome::Response { body, .. } => match string_field(body@, "/id"@) {
            Some(text) => Ok(text),
            None => Err(failure(ErrorCategory::Rpc, missing_identifier_message())),
        },
    }
}

/// The payout failed, with the given failure.
pub open spec fn payout_failed(state: PayoutState, failed: Failure) -> bool {
    state matches PayoutState::Failed { error } && error@ == failed
}

/// Reads the identifier of a new record from a reply. The failure of a
/// request that did not get through says what was being made, and why it
/// was not.
pub fn read_reply_id(reply: &ProviderOutcome, what: &str) -> (outcome: Result<
    String,
    TransferError,
>)
    ensures
        match reply_id(*reply, what@) {
            Ok(text) => outcome is Ok && outcome->Ok_0@ == text,
            Err(failed) => outcome is Err && outcome->Err_0@ == failed,
        },
{
    match reply {
        ProviderOutcome::Failure { reason } => {
            let mut message = String::from_str("Error creating ");
            message.append(what);
            message.append(": ");
            message.append(reason.as_str());
            Err(TransferError { category: ErrorCategory::Network, message })
        },
        ProviderOutcome::Response { body, .. } => field_or_rpc_error(
            json_string_field(body.as_slice(), "/id"),
            "the reply holds no identifier",
        ),
    }
}

/// Writes a contact.
pub fn write_contact(contact: &str, email: &str, name: &str) -> (text: String)
    ensures
        text@ == contact_text_for(contact@, email@, name@),
{
    let mut text = String::from_str("{\"contact\":");
    text.append(json_string(contact).as_str());
    text.append(",\"email\":");
    text.append(json_string(email).as_str());
    text.append(",\"name\":");
    text.append(json_string(name).as_str());
    text.append("}");
    text
}

/// Writes a fund account.
pub fn write_fund_account(account_number: &str, ifsc: &str, name: &str, contact_id: &str) -> (text:
    String)
    ensures
        text@ == fund_account_text_for(account_number@, ifsc@, name@, contact_id@),
{
    let mut text = String::from_str(
        "{\"account_type\":\"bank_account\",\"bank_account\":{\"account_number\":",
    );
    text.append(json_string(account_number).as_str());
    text.append(",\"ifsc\":");
    text.append(json_string(ifsc).as_str());
    text.append(",\"name\":");
    text.append(json_string(name).as_str());
    text.append("},\"contact_id\":");
    text.append(json_string(contact_id).as_str());
    text.append("}");
    text
}

/// Writes a payout.
pub fn write_payout(account: &str, amount: u64, fund_account_id: &str) -> (text: String)
    ensures
        text@ == payout_text_for(account@, amount, fund_account_id@),
{
    let mut text = String::from_str("{\"account_number\":");
    text.append(json_string(account).as_str());
    text.append(",\"amount\":");
    text.append(decimal_text(amount).as_str());
    text.append(",\"currency\":\"INR\",\"fund_account_id\":");
    text.append(json_string(fund_account_id).as_str());
    text.append(",\"mode\":\"IMPS\",\"purpose\":\"payout\"}");
    text
}

/// `request` is a POST of `body` to `url` under the given credentials: the
/// JSON content type, the credentials as basic authorization, and the
/// given limit on its cost.
pub open spec fn posts_with(
    request: OutboundRequest,
    credentials: Seq<char>,
    url: Seq<char>,
    body: Seq<char>,
    cost: u128,
) -> bool {
    &&& request.url@ == url
    &&& request.method == HttpMethod::Post
    &&& request.headers@.len() == 2
    &&& header_is(request.headers@[0], "Content-Type"@, "application/json"@)
    &&& header_is(request.headers@[1], "Authorization"@, authorization_text(credentials))
    &&& request.body is Some
    &&& request.body->Some_0@ == encode_utf8(body)
    &&& request.max_response_bytes is None
    &&& request.max_cost == cost
    &&& request.transform is None
    &&& !request.use_compression
}

/// The request that posts `body` to `url` under the given credentials.
fn post_with(credentials: &str, url: &str, body: &str, cost: u128) -> (request: OutboundRequest)
    ensures
        posts_with(request, credentials@, url@, body@, cost),
{
    let mut headers: Vec<HttpHeader> = Vec::new();
    headers.push(
        HttpHeader {
            name: String::from_str("Content-Type"),
            value: String::from_str("application/json"),
        },
    );
    headers.push(
        HttpHeader {
            name: String::from_str("Authorization"),
            value: basic_authorization(credentials),
        },
    );
    OutboundRequest {
        url: String::from_str(url),
        method: HttpMethod::Post,
        headers,
        body: Some(body.as_bytes_vec()),
        max_response_bytes: None,
        max_cost: cost,
        transform: None,
        use_compression: false,
    }
}

/// The request that makes an order of `amount` in rupees, under the given
/// credentials. The order's identifier is read from the reply by
/// [`read_reply_id`].
pub fn create_order_request(amount: u64, credentials: &str) -> (request: OutboundRequest)
    ensures
        posts_with(request, credentials@, orders_url(), order_body(amount), ORDER_REQUEST_COST),
{
    let mut body = String::from_str("{\"amount\":");
    body.append(decimal_text(amount).as_str());
    body.append(",\"currency\":\"INR\"}");
    post_with(credentials, "https://api.razorpay.com/v1/orders", body.as_str(), ORDER_REQUEST_COST)
}

/// `request` is the order of `amount` in rupees for a payment into the
/// treasury: a POST of the order to the address of orders, with the JSON
/// content type and `authorization` as the whole value of the
/// authorization header.
pub open spec fn orders_into_treasury(
    request: OutboundRequest,
    amount: u64,
    authorization: Seq<char>,
) -> bool {
    &&& request.url@ == orders_url()
    &&& request.method == HttpMethod::Post
    &&& request.headers@.len() == 2
    &&& header_is(request.headers@[0], "content-type"@, "application/json"@)
    &&& header_is(request.headers@[1], "Authorization"@, authorization)
    &&& request.body is Some
    &&& request.body->Some_0@ == encode_utf8(order_body(amount))
    &&& request.max_response_bytes is None
    &&& request.max_cost == TREASURY_ORDER_COST
    &&& request.transform is None
    &&& !request.use_compression
}

/// The request that makes an order of `amount` in rupees for a payment
/// into the treasury. The reply is for the caller as it stands.
pub fn treasury_order_request(amount: u64, authorization: &str) -> (request: OutboundRequest)
    ensures
        orders_into_treasury(request, amount, authorization@),
{
    let mut body = String::from_str("{\"amount\":");
    body.append(decimal_text(amount).as_str());
    body.append(",\"currency\":\"INR\"}");
    let mut headers: Vec<HttpHeader> = Vec::new();
    headers.push(
        HttpHeader {
            name: String::from_str("content-type"),
            value: String::from_str("application/json"),
        },
    );
    headers.push(
        HttpHeader {
            name: String::from_str("Authorization"),
            value: String::from_str(authorization),
        },
    );
    OutboundRequest {
        url: String::from_str("https://api.razorpay.com/v1/orders"),
        method: HttpMethod::Post,
        headers,
        body: Some(body.as_str().as_bytes_vec()),
        max_response_bytes: None,
        max_cost: TREASURY_ORDER_COST,
        transform: None,
        use_compression: false,
    }
}

/// What is being made while a payout is in the given state.
pub open spec fn record_awaited(state: PayoutState) -> Seq<char> {
    match state {
        PayoutState::ContactRequested { .. } => "contact"@,
        PayoutState::FundAccountRequested { .. } => "fund account"@,
        _ => "payout"@,
    }
}

impl PayoutClient {
    /// What starting a payout leads to: the contact is asked for, and the
    /// account and the amount wait in the state.
    pub open spec fn payout_starts_with(
        self,
        args: PayoutArgs,
        state: PayoutState,
        action: PaymentAction,
    ) -> bool {
        &&& state matches PayoutState::ContactRequested { name, ifsc, account_number, amount }
        &&& name@ == args.name@
        &&& ifsc@ == args.ifsc@
        &&& account_number@ == args.account_number@
        &&& amount == args.amount
        &&& action matches PaymentAction::Send { request }
        &&& posts_with(
            request,
            self.credentials@,
            contacts_url(),
            contact_text_for(args.contact@, args.email@, args.name@),
            CONTACT_REQUEST_COST,
        )
    }

    /// What one step leads to, from each state. A reply whose identifier
    /// cannot be read ends the payout with the failure that [`reply_id`]
    /// gives: a network failure where the request did not get through,
    /// which names the record that was being made and carries the reason;
    /// a malformed response where the reply holds no identifier.
    ///
    /// * `ContactRequested`: the identifier is the contact's; a bank
    ///   account for it is asked for.
    /// * `FundAccountRequested`: the identifier is the fund account's; a
    ///   payout into it from the client's account is asked for.
    /// * `PayoutRequested`: the identifier is the payout's.
    /// * `Created`, `Failed`: nothing changes.
    pub open spec fn payout_steps_to(
        self,
        state: PayoutState,
        reply: ProviderOutcome,
        next: PayoutState,
        action: PaymentAction,
    ) -> bool {
        match state {
            PayoutState::Created { .. } => next == state && action is Finish,
            PayoutState::Failed { .. } => next == state && action is Finish,
            _ => match reply_id(reply, record_awaited(state)) {
                Err(failed) => payout_failed(next, failed) && action is Finish,
                Ok(id) => match state {
                    PayoutState::ContactRequested { name, ifsc, account_number, amount } => {
                        &&& next matches PayoutState::FundAccountRequested { amount: kept }
                        &&& kept == amount
                        &&& action matches PaymentAction::Send { request }
                        &&& posts_with(
                            request,
                            self.credentials@,
                            fund_accounts_url(),
                            fund_account_text_for(account_number@, ifsc@, name@, id),
                            FUND_ACCOUNT_REQUEST_COST,
                        )
                    },
                    PayoutState::FundAccountRequested { amount } => {
                        &&& next is PayoutRequested
                        &&& action matches PaymentAction::Send { request }
                        &&& posts_with(
                            request,
                            self.credentials@,
                            payouts_url(),
                            payout_text_for(self.account@, amount, id),
                            PAYOUT_CREATION_COST,
                        )
                    },
                    _ => {
                        &&& next matches PayoutState::Created { payout_id }
                        &&& payout_id@ == id
                        &&& action is Finish
                    },
                },
            },
        }
    }

    /// Starts a payout to the bank account of a person: asks the provider
    /// for a contact for that person.
    pub fn payout(&self, args: PayoutArgs) -> (begun: (PayoutState, PaymentAction))
        ensures
            self.payout_starts_with(args, begun.0, begun.1),
    {
        let body = write_contact(args.contact.as_str(), args.email.as_str(), args.name.as_str());
        let request = post_with(
            self.credentials.as_str(),
            "https://api.razorpay.com/v1/contacts",
            body.as_str(),
            CONTACT_REQUEST_COST,
        );
        (
            PayoutState::ContactRequested {
                name: args.name,
                ifsc: args.ifsc,
                account_number: args.account_number,
                amount: args.amount,
            },
            PaymentAction::Send { request },
        )
    }

    /// Takes one step of a payout, on the outcome of the request that the
    /// last action asked for.
    pub fn payout_step(&self, state: PayoutState, reply: &ProviderOutcome) -> (stepped: (
        PayoutState,
        PaymentAction,
    ))
        ensures
            self.payout_steps_to(state, *reply, stepped.0, stepped.1),
    {
        match state {
            PayoutState::Created { payout_id } => (
                PayoutState::Created { payout_id },
                PaymentAction::Finish,
            ),
            PayoutState::Failed { error } => (PayoutState::Failed { error }, PaymentAction::Finish),
            PayoutState::ContactRequested { name, ifsc, account_number, amount } => {
                match read_reply_id(reply, "contact") {
                    Err(error) => (PayoutState::Failed { error }, PaymentAction::Finish),
                    Ok(contact_id) => {
                        let body = write_fund_account(
                            account_number.as_str(),
                            ifsc.as_str(),
                            name.as_str(),
                            contact_id.as_str(),
                        );
                        let request = post_with(
                            self.credentials.as_str(),
                            "https://api.razorpay.com/v1/fund_accounts",
                            body.as_str(),
                            FUND_ACCOUNT_REQUEST_COST,
                        );
                        (
                            PayoutState::FundAccountRequested { amount },
                            PaymentAction::Send { request },
                        )
                    },
                }
            },
            PayoutState::FundAccountRequested { amount } => {
                match read_reply_id(reply, "fund account") {
                    Err(error) => (PayoutState::Failed { error }, PaymentAction::Finish),
                    Ok(fund_account_id) => {
                        let body = write_payout(
                            self.account.as_str(),
                            amount,
                            fund_account_id.as_str(),
                        );
                        let request = post_with(
                            self.credentials.as_str(),
                            "https://api.razorpay.com/v1/payouts",
                            body.as_str(),
                            PAYOUT_CREATION_COST,
                        );
                        (PayoutState::PayoutRequested, PaymentAction::Send { request })
                    },
                }
            },
            PayoutState::PayoutRequested => {
                match read_reply_id(reply, "payout") {
                    Ok(payout_id) => (PayoutState::Created { payout_id }, PaymentAction::Finish),
                    Err(error) => (PayoutState::Failed { error }, PaymentAction::Finish),
                }
            },
        }
    }
}

/// How far an account payout has come.
pub open spec fn payout_stage(state: PayoutState) -> nat {
    match state {
        PayoutState::ContactRequested { .. } => 0,
        PayoutState::FundAccountRequested { .. } => 1,
        PayoutState::PayoutRequested => 2,
        PayoutState::Created { .. } => 3,
        PayoutState::Failed { .. } => 3,
    }
}

/// Every step of an account payout that is not over moves it forward; a
/// request is sent for each stage that follows, and none once the payout
/// is over; a payout that failed or is made stays as it is; and a step
/// whose reply cannot be read ends the payout with that reply's failure,
/// and sends nothing.
pub proof fn lemma_every_payout_step_advances(
    client: PayoutClient,
    state: PayoutState,
    reply: ProviderOutcome,
    next: PayoutState,
    action: PaymentAction,
)
    requires
        client.payout_steps_to(state, reply, next, action),
    ensures
        payout_stage(state) < 3 ==> payout_stage(next) > payout_stage(state),
        payout_stage(state) == 3 ==> next == state,
        action is Finish <==> payout_stage(next) == 3,
        reply_id(reply, record_awaited(state)) is Err && payout_stage(state) < 3 ==> payout_failed(
            next,
            reply_id(reply, record_awaited(state))->Err_0,
        ) && action is Finish,
{
}

} // verus!
