//! What the verifier is told about `serde_json`.

use vstd::prelude::*;

verus! {

/// `serde_json::Value`, a JSON document. It is carried through as an opaque
/// value: no function here reads what it holds.
#[verifier::external_type_specification]
#[verifier::external_body]
pub struct ExValue(serde_json::Value);

/// `<serde_json::Value as Clone>::clone`. The impl is derived, so the copy is
/// the same document as the one it was made from; that is all that is claimed.
pub assume_specification[ <serde_json::Value as Clone>::clone ](value: &serde_json::Value) -> (copy:
    serde_json::Value)
    ensures
        copy == *value,
;

} // verus!
