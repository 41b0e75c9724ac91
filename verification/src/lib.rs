//! Building, encoding, signing and submitting transfer transactions for a
//! public ledger, with contracts on every step.

pub mod base58;
pub mod base64;
pub mod builder;
pub mod error;
pub mod instructions;
pub mod json;
pub mod keys;
pub mod orders;
pub mod payout;
pub mod price;
pub mod razorpay;
pub mod request;
pub mod rpc;
pub mod signer;
pub mod submit;
pub mod text;
pub mod transaction;
pub mod wire;
