//! The JSON value that free-form metadata carries.
//!
//! The library never looks inside such a value: it stores it, copies it and
//! hands it back. The two items below are trusted, not proved.
use vstd::prelude::*;

verus! {

/// `serde_json::Value`, declared so that it can stand in fields and
/// signatures. Nothing about its contents is visible to proofs.
#[verifier::external_type_specification]
#[verifier::external_body]
pub struct ExJsonValue(serde_json::Value);

/// `<serde_json::Value as Clone>::clone`: the derived clone rebuilds the same
/// variant around clones of the same contents, so the copy is the value it
/// was made from.
pub assume_specification[ <serde_json::Value as Clone>::clone ](
    value: &serde_json::Value,
) -> (res: serde_json::Value)
    ensures
        res == *value,
;

} // verus!
