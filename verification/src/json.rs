//! JSON values that messages carry through without looking inside.
use vstd::prelude::*;

verus! {

/// A JSON value (`serde_json::Value`), carried through as it is.
#[verifier::external_type_specification]
#[verifier::external_body]
pub struct ExJsonValue(serde_json::Value);

} // verus!
