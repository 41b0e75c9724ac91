//! The fiat payout: four requests to the payout provider, one after the
//! other, each of which needs what the one before gave back.
//!
//! The machine decides; the host sends each request and hands back what
//! came of it.

use vstd::prelude::*;
use vstd::utf8::encode_utf8;
use crate::error::{failure, ErrorCategory, Failure, TransferError};
use crate::json::{json_string_field, string_field};
use crate::razorpay::{
    contact_text_of, fund_account_text_of, payout_text_of, BankAccount, Config, Contact,
    CreatePayout, FundAccount,
};
use crate::rpc::{
    field_or_rpc_error, header_is, HttpHeader, HttpMethod, OutboundRequest, ProviderOutcome,
};

verus! {

/// The most that one request to the payout provider may cost.
pub const PAYOUT_REQUEST_COST: u128 = 1_803_143_600;

/// Where a payout stands.
#[derive(Clone, Debug, PartialEq, Eq)]
pub enum PaymentState {
    /// The contact is asked for; the rest waits.
    ContactRequested { name: String, account_number: String, ifsc: String, amount: u64 },
    /// The fund account is asked for; the payout waits.
    FundAccountRequested { account_number: String, amount: u64 },
    /// The payout is asked for.
    PayoutRequested,
    /// The payout's approval is asked for.
    ApprovalRequested,
    /// The payout is approved; the provider answered with this.
    Paid { result: String },
    /// The payout failed; nothing more is done.
    Failed { error: TransferError },
}

/// What the host is to do before the next step.
#[derive(Clone, Debug, PartialEq, Eq)]
pub enum PaymentAction {
    /// Send the request, and hand its outcome to the next step.
    Send { request: OutboundRequest },
    /// Stop: the payout is over.
    Finish,
}

/// The address at which contacts are made.
pub open spec fn contacts_url() -> Seq<char> {
    "https://api.razorpay.com/v1/contacts"@
}

/// The address at which fund accounts are made.
pub open spec fn fund_accounts_url() -> Seq<char> {
    "https://api.razorpay.com/v1/fund_accounts"@
}

/// The address at which payouts are made.
pub open spec fn payouts_url() -> Seq<char> {
    "https://api.razorpay.com/v1/payouts"@
}

/// The address at which the payout with the given identifier is approved.
pub open spec fn approval_url(payout_id: Seq<char>) -> Seq<char> {
    "https://api.razorpay.com/v1//payouts/"@ + payout_id + "/approve"@
}

/// The message of the failure to read a result from a reply that holds
/// none.
pub open spec fn missing_result_message() -> Seq<char> {
    "Error sending transaction"@
}

/// What a reply gives where its result is read: the string under `result`;
/// a network failure with the reason as its message, where the request did
/// not get through; a malformed response where there is no such string.
pub open spec fn reply_result(reply: ProviderOutcome) -> Result<Seq<char>, Failure> {
    match reply {
        ProviderOutcome::Failure { reason } => Err(failure(ErrorCategory::Network, reason@)),
        ProviderOutcome::Response { body, .. } => match string_field(body@, "/result"@) {
            Some(text) => Ok(text),
            None => Err(failure(ErrorCategory::Rpc, missing_result_message())),
        },
    }
}

/// The payout failed, with the given failure.
pub open spec fn payment_failed(state: PaymentState, failed: Failure) -> bool {
    state matches PaymentState::Failed { error } && error@ == failed
}

/// Reads the result of a reply.
pub fn read_reply_result(reply: &ProviderOutcome) -> (outcome: Result<String, TransferError>)
    ensures
        match reply_result(*reply) {
            Ok(text) => outcome is Ok && outcome->Ok_0@ == text,
            Err(failed) => outcome is Err && outcome->Err_0@ == failed,
        },
{
    match reply {
        ProviderOutcome::Failure { reason } => Err(
            TransferError { category: ErrorCategory::Network, message: reason.clone() },
        ),
        ProviderOutcome::Response { body, .. } => field_or_rpc_error(
            json_string_field(body.as_slice(), "/result"),
            "Error sending transaction",
        ),
    }
}

impl Config {
    /// `request` is a POST to `url` under these credentials: the JSON
    /// content type, the key as authorization, and the given text as its
    /// body, if any.
    pub open spec fn posts(
        self,
        request: OutboundRequest,
        url: Seq<char>,
        body: Option<Seq<char>>,
    ) -> bool {
        &&& request.url@ == url
        &&& request.method == HttpMethod::Post
        &&& request.headers@.len() == 2
        &&& header_is(request.headers@[0], "Content-Type"@, "application/json"@)
        &&& header_is(request.headers@[1], "Authorization"@, self.api_key_encrypted@)
        &&& match body {
            Some(text) => request.body is Some && request.body->Some_0@ == encode_utf8(text),
            None => request.body is None,
        }
        &&& request.max_response_bytes is None
        &&& request.max_cost == PAYOUT_REQUEST_COST
        &&& request.transform is None
        &&& !request.use_compression
    }

    /// The request that posts the given text, if any, to the given
    /// address.
    fn post(&self, url: String, body: Option<String>) -> (request: OutboundRequest)
        ensures
            self.posts(
                request,
                url@,
                match body {
                    Some(text) => Some(text@),
                    None => None,
                },
            ),
    {
        let mut headers: Vec<HttpHeader> = Vec::new();
        headers.push(
            HttpHeader {
                name: String::from_str("Content-Type"),
                value: String::from_str("application/json"),
            },
        );
        headers.push(
            HttpHeader {
                name: String::from_str("Authorization"),
                value: self.api_key_encrypted.clone(),
            },
        );
        let body = match body {
            Some(text) => Some(text.as_str().as_bytes_vec()),
            None => None,
        };
        OutboundRequest {
            url,
            method: HttpMethod::Post,
            headers,
            body,
            max_response_bytes: None,
            max_cost: PAYOUT_REQUEST_COST,
            transform: None,
            use_compression: false,
        }
    }

    /// What starting a payout leads to: the contact is asked for, as a
    /// customer, and the account and the amount wait in the state.
    pub open spec fn pay_starts_with(
        self,
        name: Seq<char>,
        email: Seq<char>,
        contact: Seq<char>,
        account_number: Seq<char>,
        ifsc: Seq<char>,
        amount: u64,
        state: PaymentState,
        action: PaymentAction,
    ) -> bool {
        &&& state matches PaymentState::ContactRequested {
            name: kept_name,
            account_number: kept_number,
            ifsc: kept_ifsc,
            amount: kept_amount,
        }
        &&& kept_name@ == name
        &&& kept_number@ == account_number
        &&& kept_ifsc@ == ifsc
        &&& kept_amount == amount
        &&& action matches PaymentAction::Send { request }
        &&& self.posts(
            request,
            contacts_url(),
            Some(contact_text_of(name, email, contact, "customer"@)),
        )
    }

    /// What one step leads to, from each state. A reply whose result
    /// cannot be read ends the payout with the failure that
    /// [`reply_result`] gives: a network failure that carries the reason,
    /// where the request did not get through; a malformed response where
    /// the reply holds no result.
    ///
    /// * `ContactRequested`: the result is the contact's identifier; a
    ///   bank account for it is asked for.
    /// * `FundAccountRequested`: the result is the fund account's
    ///   identifier; a payout into it is asked for, in rupees, by IMPS.
    /// * `PayoutRequested`: the result is the payout's identifier; its
    ///   approval is asked for.
    /// * `ApprovalRequested`: the result is the outcome of the payout.
    /// * `Paid`, `Failed`: nothing changes.
    pub open spec fn pay_steps_to(
        self,
        state: PaymentState,
        reply: ProviderOutcome,
        next: PaymentState,
        action: PaymentAction,
    ) -> bool {
        match state {
            PaymentState::Paid { .. } => next == state && action is Finish,
            PaymentState::Failed { .. } => next == state && action is Finish,
            _ => match reply_result(reply) {
                Err(failed) => payment_failed(next, failed) && action is Finish,
                Ok(result) => match state {
                    PaymentState::ContactRequested { name, account_number, ifsc, amount } => {
                        &&& next matches PaymentState::FundAccountRequested {
                            account_number: kept_number,
                            amount: kept_amount,
                        }
                        &&& kept_number@ == account_number@
                        &&& kept_amount == amount
                        &&& action matches PaymentAction::Send { request }
                        &&& self.posts(
                            request,
                            fund_accounts_url(),
                            Some(
                                fund_account_text_of(
                                    result,
                                    "bank_account"@,
                                    name@,
                                    account_number@,
                                    ifsc@,
                                ),
                            ),
                        )
                    },
                    PaymentState::FundAccountRequested { account_number, amount } => {
                        &&& next is PayoutRequested
                        &&& action matches PaymentAction::Send { request }
                        &&& self.posts(
                            request,
                            payouts_url(),
                            Some(
                                payout_text_of(
                                    account_number@,
                                    result,
                                    amount,
                                    "INR"@,
                                    "IMPS"@,
                                    "payout"@,
                                ),
                            ),
                        )
                    },
                    PaymentState::PayoutRequested => {
                        &&& next is ApprovalRequested
                        &&& action matches PaymentAction::Send { request }
                        &&& self.posts(request, approval_url(result), None)
                    },
                    _ => {
                        &&& next matches PaymentState::Paid { result: kept }
                        &&& kept@ == result
                        &&& action is Finish
                    },
                },
            },
        }
    }

    /// Starts a payout of `amount` to the bank account of a person: asks
    /// the provider for a contact for that person.
    pub fn pay(
        &self,
        name: String,
        email: String,
        contact: String,
        account_number: String,
        ifsc: String,
        amount: u64,
    ) -> (begun: (PaymentState, PaymentAction))
        ensures
            self.pay_starts_with(
                name@,
                email@,
                contact@,
                account_number@,
                ifsc@,
                amount,
                begun.0,
                begun.1,
            ),
    {
        let record = Contact {
            name: name.clone(),
            email,
            contact,
            contact_type: String::from_str("customer"),
        };
        let request = self.post(
            String::from_str("https://api.razorpay.com/v1/contacts"),
            Some(record.to_json_string()),
        );
        (
            PaymentState::ContactRequested { name, account_number, ifsc, amount },
            PaymentAction::Send { request },
        )
    }

    /// Takes one step of a payout, on the outcome of the request that the
    /// last action asked for.
    pub fn pay_step(&self, state: PaymentState, reply: &ProviderOutcome) -> (stepped: (
        PaymentState,
        PaymentAction,
    ))
        ensures
            self.pay_steps_to(state, *reply, stepped.0, stepped.1),
    {
        match state {
            PaymentState::Paid { result } => (PaymentState::Paid { result }, PaymentAction::Finish),
            PaymentState::Failed { error } => (
                PaymentState::Failed { error },
                PaymentAction::Finish,
            ),
            PaymentState::ContactRequested { name, account_number, ifsc, amount } => {
                match read_reply_result(reply) {
                    Err(error) => (PaymentState::Failed { error }, PaymentAction::Finish),
                    Ok(contact_id) => {
                        let record = FundAccount {
                            contact_id,
                            account_type: String::from_str("bank_account"),
                            bank_account: BankAccount {
                                name,
                                account_number: account_number.clone(),
                                ifsc,
                            },
                        };
                        let request = self.post(
                            String::from_str("https://api.razorpay.com/v1/fund_accounts"),
                            Some(record.to_json_string()),
                        );
                        (
                            PaymentState::FundAccountRequested { account_number, amount },
                            PaymentAction::Send { request },
                        )
                    },
                }
            },
            PaymentState::FundAccountRequested { account_number, amount } => {
                match read_reply_result(reply) {
                    Err(error) => (PaymentState::Failed { error }, PaymentAction::Finish),
                    Ok(fund_account_id) => {
                        let record = CreatePayout {
                            account_number,
                            fund_account_id,
                            amount,
                            currency: String::from_str("INR"),
                            mode: String::from_str("IMPS"),
                            purpose: String::from_str("payout"),
                        };
                        let request = self.post(
                            String::from_str("https://api.razorpay.com/v1/payouts"),
                            Some(record.to_json_string()),
                        );
                        (PaymentState::PayoutRequested, PaymentAction::Send { request })
                    },
                }
            },
            PaymentState::PayoutRequested => {
                match read_reply_result(reply) {
                    Err(error) => (PaymentState::Failed { error }, PaymentAction::Finish),
                    Ok(payout_id) => {
                        let mut url = String::from_str("https://api.razorpay.com/v1//payouts/");
                        url.append(payout_id.as_str());
                        url.append("/approve");
                        let request = self.post(url, None);
                        (PaymentState::ApprovalRequested, PaymentAction::Send { request })
                    },
                }
            },
            PaymentState::ApprovalRequested => {
                match read_reply_result(reply) {
                    Err(error) => (PaymentState::Failed { error }, PaymentAction::Finish),
                    Ok(result) => (PaymentState::Paid { result }, PaymentAction::Finish),
                }
            },
        }
    }
}

/// How far a payout has come.
pub open spec fn payment_stage(state: PaymentState) -> nat {
    match state {
        PaymentState::ContactRequested { .. } => 0,
        PaymentState::FundAccountRequested { .. } => 1,
        PaymentState::PayoutRequested => 2,
        PaymentState::ApprovalRequested => 3,
        PaymentState::Paid { .. } => 4,
        PaymentState::Failed { .. } => 4,
    }
}

/// Every step of a payout that is not over moves it forward; a request is
/// sent for each stage that follows, and none once the payout is over; a
/// payout that failed or is paid stays as it is; and a step whose reply
/// cannot be read ends the payout with that reply's failure, and sends
/// nothing.
pub proof fn lemma_every_payment_step_advances(
    config: Config,
    state: PaymentState,
    reply: ProviderOutcome,
    next: PaymentState,
    action: PaymentAction,
)
    requires
        config.pay_steps_to(state, reply, next, action),
    ensures
        payment_stage(state) < 4 ==> payment_stage(next) > payment_stage(state),
        payment_stage(state) == 4 ==> next == state,
        action is Finish <==> payment_stage(next) == 4,
        reply_result(reply) is Err && payment_stage(state) < 4 ==> payment_failed(
            next,
            reply_result(reply)->Err_0,
        ) && action is Finish,
{
}

} // verus!
