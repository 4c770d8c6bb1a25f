use vstd::prelude::*;

verus! {

/// A JSON value of serde_json, carried through the message model untouched.
#[verifier::external_type_specification]
#[verifier::external_body]
pub struct ExJsonValue(serde_json::Value);

/// A JSON object of serde_json, carried through the message model untouched.
#[verifier::external_type_specification]
#[verifier::external_body]
#[verifier::reject_recursive_types(K)]
#[verifier::reject_recursive_types(V)]
pub struct ExJsonMap<K, V>(serde_json::Map<K, V>);

/// An encode or decode failure reported by serde_json.
#[verifier::external_type_specification]
#[verifier::external_body]
pub struct ExJsonError(serde_json::Error);

/// serde_json's `Clone` for objects, reached from the derived `Clone` of the
/// message types; nothing is claimed of the copy.
pub assume_specification[ <serde_json::Map<String, serde_json::Value> as Clone>::clone ](
    m: &serde_json::Map<String, serde_json::Value>,
) -> serde_json::Map<String, serde_json::Value>;

/// serde_json's `Clone` for values, reached from the derived `Clone` of the
/// message types; nothing is claimed of the copy.
pub assume_specification[ <serde_json::Value as Clone>::clone ](
    v: &serde_json::Value,
) -> serde_json::Value;

} // verus!
