//! The messages of the protected endpoints.
//!
//! The endpoints themselves only acknowledge what they get; these are the
//! records they accept once the guard has let a request through.

use vstd::prelude::*;

verus! {

/// What every protected endpoint answers once the guard has let a request
/// through.
pub open spec fn acknowledgement() -> Seq<char> {
    "{message: ok}"@
}

/// The first message of a trade: the seller's offer.
#[derive(Debug, Clone, PartialEq, Eq)]
pub struct Message1 {
    pub trade_id: u32,
    pub seller_id: String,
    pub buyer_id: String,
    pub isd: String,
    pub amount: u32,
    pub htlc_secret: String,
    pub htlc_deadline_epoch: i64,
    pub htlc_hash_func: String,
    pub htlc_enc_func: String,
    pub network_id: String,
    pub seller_cbdc_wallet_ref: String,
}

/// The second message of a trade: the buyer's answer.
#[derive(Debug, Clone, PartialEq, Eq)]
pub struct Message2 {
    pub trade_id: u32,
    pub seller_cambic: String,
    pub isd: String,
    pub amount: u32,
    pub buyer_cbdc_wallet_ref: String,
    pub htlc_hash: String,
    pub htlc_hash_func: String,
    pub htlc_enc_func: String,
    pub network_id: String,
}

/// The acknowledgement that a protected endpoint sends.
pub fn acknowledge() -> (text: String)
    ensures
        text@ == acknowledgement(),
{
    String::from_str("{message: ok}")
}

} // verus!
