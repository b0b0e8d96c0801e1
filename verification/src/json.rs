use vstd::prelude::*;

verus! {

/// A JSON value, as carried in the payload of a message. The library
/// moves such values around without looking inside them.
#[verifier::external_type_specification]
#[verifier::external_body]
pub struct ExJsonValue(serde_json::Value);

} // verus!
