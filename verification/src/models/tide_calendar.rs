//! Tide omens and the samples that players contribute.

use vstd::prelude::*;
use std::collections::HashMap;

verus! {

#[verifier::external_type_specification]
#[verifier::external_body]
pub struct ExJsonValue(serde_json::Value);

#[verifier::external_type_specification]
#[verifier::external_body]
pub struct ExJsonError(serde_json::Error);

/// The omen of one week.
#[derive(Debug)]
pub struct TideOmen {
    pub week_key: String,
    pub omen_id: String,
    pub omen_name: String,
    pub modifiers: HashMap<String, serde_json::Value>,
}

/// One sample for the tide ledger. The value passes through the library
/// untouched, in the store's own value type.
#[derive(Debug)]
pub struct TideContribution {
    pub metric: String,
    pub value: rusqlite::types::Value,
}

/// What a contribution answers.
#[derive(Debug)]
pub struct TideContributeResult {
    pub accepted: bool,
}

} // verus!
