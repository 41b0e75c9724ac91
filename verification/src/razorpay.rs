//! The records exchanged with the fiat payout provider, and the exact text
//! of the requests that carry them.

use vstd::prelude::*;
use vstd::utf8::encode_utf8;
use crate::base64::{base64_encoding, encode_base64};
use crate::text::{decimal_digits, decimal_text};

verus! {

/// The credentials handed over when the service starts.
#[derive(Clone, Debug, PartialEq, Eq)]
pub struct InitArgs {
    pub razorpay_api_key_encrypted: String,
    pub idempotent_key_encrypted: String,
}

/// The credentials under which payout requests are made.
#[derive(Clone, Debug, PartialEq, Eq)]
pub struct Config {
    pub api_key_encrypted: String,
    pub idempotent_key: String,
}

/// The provider's answer to a request that creates a record.
#[derive(Clone, Debug, PartialEq, Eq)]
pub struct Response {
    pub id: String,
}

/// The provider's answer to a payout.
#[derive(Clone, Debug, PartialEq, Eq)]
pub struct PayoutResponse {
    pub status: String,
}

/// The body of an order.
#[derive(Clone, Debug, PartialEq, Eq)]
pub struct PaymentBody {
    pub amount: u64,
    pub currency: String,
}

/// The person who is paid.
#[derive(Clone, Debug, PartialEq, Eq)]
pub struct Contact {
    pub name: String,
    pub email: String,
    pub contact: String,
    pub contact_type: String,
}

/// A bank account.
#[derive(Clone, Debug, PartialEq, Eq)]
pub struct BankAccount {
    pub name: String,
    pub account_number: String,
    pub ifsc: String,
}

/// The account of a contact into which payouts go.
#[derive(Clone, Debug, PartialEq, Eq)]
pub struct FundAccount {
    pub contact_id: String,
    pub account_type: String,
    pub bank_account: BankAccount,
}

/// A payout from the service's account into a fund account.
#[derive(Clone, Debug, PartialEq, Eq)]
pub struct CreatePayout {
    pub account_number: String,
    pub fund_account_id: String,
    pub amount: u64,
    pub currency: String,
    pub mode: String,
    pub purpose: String,
}

/// What a caller gives to have a person paid.
#[derive(Clone, Debug, PartialEq, Eq)]
pub struct PayoutArgs {
    pub name: String,
    pub email: String,
    pub contact: String,
    pub ifsc: String,
    pub account_number: String,
    pub amount: u64,
}

/// The text of a contact: the members `name`, `email`, `contact` and
/// `type`, in this order, with no white space and no escaping.
pub open spec fn contact_text_of(
    name: Seq<char>,
    email: Seq<char>,
    contact: Seq<char>,
    contact_type: Seq<char>,
) -> Seq<char> {
    "{\"name\":\""@ + name + "\",\"email\":\""@ + email + "\",\"contact\":\""@ + contact
        + "\",\"type\":\""@ + contact_type + "\"}"@
}

/// The text of a fund account: the members `contact_id`, `account_type`
/// and `bank_account`, the last with the members `name`, `account_number`
/// and `ifsc`, with no white space and no escaping.
pub open spec fn fund_account_text_of(
    contact_id: Seq<char>,
    account_type: Seq<char>,
    name: Seq<char>,
    account_number: Seq<char>,
    ifsc: Seq<char>,
) -> Seq<char> {
    "{\"contact_id\":\""@ + contact_id + "\",\"account_type\":\""@ + account_type
        + "\",\"bank_account\":{\"name\":\""@ + name + "\",\"account_number\":\""@ + account_number
        + "\",\"ifsc\":\""@ + ifsc + "\"}}"@
}

/// The text of a payout: the members `account_number`, `fund_account_id`,
/// `amount` (a decimal number), `currency`, `mode` and `purpose`, with no
/// white space and no escaping.
pub open spec fn payout_text_of(
    account_number: Seq<char>,
    fund_account_id: Seq<char>,
    amount: u64,
    currency: Seq<char>,
    mode: Seq<char>,
    purpose: Seq<char>,
) -> Seq<char> {
    "{\"account_number\":\""@ + account_number + "\",\"fund_account_id\":\""@ + fund_account_id
        + "\",\"amount\":"@ + decimal_digits(amount as nat) + ",\"currency\":\""@ + currency
        + "\",\"mode\":\""@ + mode + "\",\"purpose\":\""@ + purpose + "\"}"@
}

/// The text of a contact.
pub open spec fn contact_text(contact: Contact) -> Seq<char> {
    contact_text_of(contact.name@, contact.email@, contact.contact@, contact.contact_type@)
}

/// The text of a fund account.
pub open spec fn fund_account_text(account: FundAccount) -> Seq<char> {
    fund_account_text_of(
        account.contact_id@,
        account.account_type@,
        account.bank_account.name@,
        account.bank_account.account_number@,
        account.bank_account.ifsc@,
    )
}

/// The text of a payout.
pub open spec fn payout_text(payout: CreatePayout) -> Seq<char> {
    payout_text_of(
        payout.account_number@,
        payout.fund_account_id@,
        payout.amount,
        payout.currency@,
        payout.mode@,
        payout.purpose@,
    )
}

/// The credentials of an account in one text: the public key, a colon, the
/// secret key, all in base 64.
pub open spec fn credentials_text(public_key: Seq<char>, secret_key: Seq<char>) -> Seq<char> {
    base64_encoding(encode_utf8(public_key + ":"@ + secret_key))
}

/// The value of the authorization header that carries the given
/// credentials.
pub open spec fn authorization_text(credentials: Seq<char>) -> Seq<char> {
    "Basic "@ + credentials
}

/// Joins the two keys of an account into its credentials.
pub fn basic_credentials(public_key: &str, secret_key: &str) -> (text: String)
    ensures
        text@ == credentials_text(public_key@, secret_key@),
{
    let mut joined = String::from_str(public_key);
    joined.append(":");
    joined.append(secret_key);
    encode_base64(joined.as_str().as_bytes())
}

/// The value of the authorization header that carries the given
/// credentials.
pub fn basic_authorization(credentials: &str) -> (text: String)
    ensures
        text@ == authorization_text(credentials@),
{
    let mut text = String::from_str("Basic ");
    text.append(credentials);
    text
}

impl Config {
    /// The configuration with the given credentials.
    pub fn new(api_key_encrypted: String, idempotent_key: String) -> (config: Config)
        ensures
            config.api_key_encrypted == api_key_encrypted,
            config.idempotent_key == idempotent_key,
    {
        Config { api_key_encrypted, idempotent_key }
    }
}

impl Contact {
    /// The contact's text, as it is sent.
    pub fn to_json_string(&self) -> (text: String)
        ensures
            text@ == contact_text(*self),
    {
        let mut text = String::from_str("{\"name\":\"");
        text.append(self.name.as_str());
        text.append("\",\"email\":\"");
        text.append(self.email.as_str());
        text.append("\",\"contact\":\"");
        text.append(self.contact.as_str());
        text.append("\",\"type\":\"");
        text.append(self.contact_type.as_str());
        text.append("\"}");
        text
    }
}

impl FundAccount {
    /// The fund account's text, as it is sent.
    pub fn to_json_string(&self) -> (text: String)
        ensures
            text@ == fund_account_text(*self),
    {
        let mut text = String::from_str("{\"contact_id\":\"");
        text.append(self.contact_id.as_str());
        text.append("\",\"account_type\":\"");
        text.append(self.account_type.as_str());
        text.append("\",\"bank_account\":{\"name\":\"");
        text.append(self.bank_account.name.as_str());
        text.append("\",\"account_number\":\"");
        text.append(self.bank_account.account_number.as_str());
        text.append("\",\"ifsc\":\"");
        text.append(self.bank_account.ifsc.as_str());
        text.append("\"}}");
        text
    }
}

impl CreatePayout {
    /// The payout's text, as it is sent.
    pub fn to_json_string(&self) -> (text: String)
        ensures
            text@ == payout_text(*self),
    {
        let mut text = String::from_str("{\"account_number\":\"");
        text.append(self.account_number.as_str());
        text.append("\",\"fund_account_id\":\"");
        text.append(self.fund_account_id.as_str());
        text.append("\",\"amount\":");
        text.append(decimal_text(self.amount).as_str());
        text.append(",\"currency\":\"");
        text.append(self.currency.as_str());
        text.append("\",\"mode\":\"");
        text.append(self.mode.as_str());
        text.append("\",\"purpose\":\"");
        text.append(self.purpose.as_str());
        text.append("\"}");
        text
    }
}

} // verus!
