use vstd::prelude::*;

verus! {

/// serde_json's value: what its reader returns and its writers take, moved
/// to and from this library's `JsonValue` in the codec.
#[verifier::external_type_specification]
#[verifier::external_body]
pub struct ExJsonValue(serde_json::Value);

} // verus!
