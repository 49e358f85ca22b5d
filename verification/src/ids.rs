//! Fresh identifiers for what the library stores.

use vstd::prelude::*;

verus! {

/// Draws a random identifier with `uuid::Uuid::new_v4` and writes it as uuid
/// displays it: 32 hexadecimal digits in five groups, 36 characters in all.
/// Which identifier comes is not promised.
#[verifier::external_body]
pub(crate) fn new_id() -> (id: String)
    ensures
        id@.len() == 36,
{
    uuid::Uuid::new_v4().to_string()
}

} // verus!
