//! Rules that every submission is held to before the store is touched.

use vstd::prelude::*;
use vstd::string::StringExecFns;
use crate::error::AppError;
use vstd::string::StrSliceExecFns;
use crate::text::{lemma_ink_bounds, str_equals, trim_bounds, trimmed};

verus! {

/// Most characters a player name keeps.
pub const MAX_PLAYER_NAME_LEN: usize = 32;

/// Largest accepted ghost tape, in bytes: 512 KiB.
pub const MAX_GHOST_TAPE_SIZE: usize = 524288;

/// Least aid a signal fire may carry.
pub const MIN_AID_AMOUNT: i64 = 1;

/// Most aid a signal fire may carry.
pub const MAX_AID_AMOUNT: i64 = 100;

/// The catalog of ship classes.
pub open spec fn ship_class_known(class: Seq<char>) -> bool {
    class == "sloop"@ || class == "brigantine"@ || class == "galleon"@
}

/// The catalog of aid types.
pub open spec fn aid_type_known(aid_type: Seq<char>) -> bool {
    aid_type == "supplies"@ || aid_type == "intel"@ || aid_type == "rep"@
}

/// Accepts exactly the ship classes of the catalog.
pub fn validate_ship_class(class: &str) -> (r: Result<(), AppError>)
    ensures
        ship_class_known(class@) ==> r is Ok,
        !ship_class_known(class@) ==> r is Err && r->Err_0.is_bad_request(
            "Invalid ship class: "@ + class@,
        ),
{
    if str_equals(class, "sloop") || str_equals(class, "brigantine") || str_equals(
        class,
        "galleon",
    ) {
        Ok(())
    } else {
        Err(AppError::BadRequest(String::from_str("Invalid ship class: ").concat(class)))
    }
}

/// The name under which a run is listed: the given name without the white
/// space around it, cut to 32 characters, or a default where nothing is left.
pub open spec fn normalized_player_name(name: Seq<char>) -> Seq<char> {
    let kept = trimmed(name);
    if kept.len() == 0 {
        "Anonymous"@
    } else if kept.len() <= MAX_PLAYER_NAME_LEN {
        kept
    } else {
        kept.take(MAX_PLAYER_NAME_LEN as int)
    }
}

/// Trims a player name, cuts it to 32 characters and fills in the default.
pub fn validate_player_name(name: &str) -> (r: String)
    ensures
        r@ == normalized_player_name(name@),
{
    let (start, end) = trim_bounds(name);
    proof {
        lemma_ink_bounds(name@);
    }
    if start >= end {
        String::from_str("Anonymous")
    } else {
        let stop = if end - start > MAX_PLAYER_NAME_LEN {
            start + MAX_PLAYER_NAME_LEN
        } else {
            end
        };
        let kept = name.substring_char(start, stop);
        assert(kept@ == normalized_player_name(name@));
        String::from_str(kept)
    }
}

/// Accepts exactly the scores that are not negative.
pub fn validate_score(score: i64) -> (r: Result<(), AppError>)
    ensures
        score >= 0 ==> r is Ok,
        score < 0 ==> r is Err && r->Err_0.is_bad_request("Score cannot be negative"@),
{
    if score < 0 {
        Err(AppError::bad_request("Score cannot be negative"))
    } else {
        Ok(())
    }
}

/// True when a decoded ghost tape, if there is one, is within the size limit.
pub open spec fn ghost_tape_fits(tape: Option<Seq<u8>>) -> bool {
    tape matches Some(data) ==> data.len() <= MAX_GHOST_TAPE_SIZE
}

/// Accepts an absent tape and any tape of at most 512 KiB.
pub fn validate_ghost_tape(tape: &Option<Vec<u8>>) -> (r: Result<(), AppError>)
    ensures
        match *tape {
            Some(data) => if data@.len() <= MAX_GHOST_TAPE_SIZE {
                r is Ok
            } else {
                r is Err && r->Err_0.is_bad_request("Ghost tape too large"@)
            },
            None => r is Ok,
        },
{
    if let Some(data) = tape {
        if data.len() > MAX_GHOST_TAPE_SIZE {
            return Err(AppError::bad_request("Ghost tape too large"));
        }
    }
    Ok(())
}

/// Accepts exactly the aid types of the catalog.
pub fn validate_aid_type(aid_type: &str) -> (r: Result<(), AppError>)
    ensures
        aid_type_known(aid_type@) ==> r is Ok,
        !aid_type_known(aid_type@) ==> r is Err && r->Err_0.is_bad_request(
            "Invalid aid type: "@ + aid_type@,
        ),
{
    if str_equals(aid_type, "supplies") || str_equals(aid_type, "intel") || str_equals(
        aid_type,
        "rep",
    ) {
        Ok(())
    } else {
        Err(AppError::BadRequest(String::from_str("Invalid aid type: ").concat(aid_type)))
    }
}

/// Accepts exactly the amounts from 1 to 100.
pub fn validate_aid_amount(amount: i64) -> (r: Result<(), AppError>)
    ensures
        MIN_AID_AMOUNT <= amount <= MAX_AID_AMOUNT ==> r is Ok,
        !(MIN_AID_AMOUNT <= amount <= MAX_AID_AMOUNT) ==> r is Err && r->Err_0.is_bad_request(
            "Aid amount must be 1-100"@,
        ),
{
    if amount < MIN_AID_AMOUNT || amount > MAX_AID_AMOUNT {
        Err(AppError::bad_request("Aid amount must be 1-100"))
    } else {
        Ok(())
    }
}

} // verus!
