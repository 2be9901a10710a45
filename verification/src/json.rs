//! The trusted boundary to the JSON library: the decoders carry parsed JSON
//! documents through opaquely and never look inside them.

use vstd::prelude::*;

verus! {

#[verifier::external_type_specification]
#[verifier::external_body]
pub struct ExJsonValue(serde_json::Value);

/// The JSON document that `serde_json::from_slice` parses out of `bytes`, if
/// the bytes are a well-formed JSON text; the result is a function of the
/// bytes alone.
pub uninterp spec fn json_value_of(bytes: Seq<u8>) -> Option<serde_json::Value>;

/// Relies on `serde_json::from_slice`: it parses a well-formed JSON text into
/// a document and fails on anything else, deterministically in the bytes.
#[verifier::external_body]
pub(crate) fn parse_json(bytes: &[u8]) -> (r: Option<serde_json::Value>)
    ensures
        r == json_value_of(bytes@),
{
    serde_json::from_slice::<serde_json::Value>(bytes).ok()
}

} // verus!
