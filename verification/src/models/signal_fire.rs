//! Signal fires: redeemable aid codes.

use vstd::prelude::*;

verus! {

/// The request to light a signal fire.
#[derive(Debug)]
pub struct SignalFireCreateRequest {
    pub creator_run: String,
    pub aid_type: String,
    pub aid_amount: i64,
}

/// The code of a signal fire just lit.
#[derive(Debug)]
pub struct SignalFireCreateResult {
    pub code: String,
}

/// The request to redeem a signal fire.
#[derive(Debug)]
pub struct SignalFireRedeemRequest {
    pub code: String,
}

/// The aid that a redeemed signal fire grants. The heat cost passes through
/// the library untouched, in the store's own value type.
#[derive(Debug)]
pub struct SignalFireRedeemResult {
    pub aid_type: String,
    pub aid_amount: i64,
    pub heat_cost: rusqlite::types::Value,
}

} // verus!
