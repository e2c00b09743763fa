//! JSON values, which the library carries but does not look into.

use serde_json::Value;
use vstd::prelude::*;

verus! {

/// `serde_json::Value`, opaque here.
#[verifier::external_type_specification]
#[verifier::external_body]
pub struct ExValue(serde_json::Value);

/// `serde_json::Error`, opaque here.
#[verifier::external_type_specification]
#[verifier::external_body]
pub struct ExJsonError(serde_json::Error);

/// The bytes of the JSON text that `serde_json::to_vec` writes for `value`; `None` where it
/// reports an error instead. What the text reads is that crate's own affair.
pub uninterp spec fn json_encoding(value: serde_json::Value) -> Option<Seq<u8>>;

/// `Clone` of `serde_json::Value`: the copy is the same JSON value.
pub assume_specification[ <serde_json::Value as Clone>::clone ](value: &serde_json::Value) -> (copy:
    serde_json::Value)
    ensures
        copy == *value,
;

/// Calls `serde_json::to_vec`, whose result is a function of the value alone.
#[verifier::external_body]
fn encode_json(value: &Value) -> (encoded: Result<Vec<u8>, serde_json::Error>)
    ensures
        match encoded {
            Ok(bytes) => json_encoding(*value) == Some(bytes@),
            Err(_) => json_encoding(*value) is None,
        },
{
    serde_json::to_vec(value)
}

/// The size of an encoding: 0 where there is none.
pub open spec fn encoding_size(encoding: Option<Seq<u8>>) -> nat {
    match encoding {
        Some(bytes) => bytes.len(),
        None => 0,
    }
}

/// The number of bytes of an encoding, 0 where encoding failed.
pub fn encoded_len(encoded: &Result<Vec<u8>, serde_json::Error>) -> (len: usize)
    ensures
        match encoded {
            Ok(bytes) => len == bytes@.len(),
            Err(_) => len == 0,
        },
{
    match encoded {
        Ok(bytes) => bytes.len(),
        Err(_) => 0,
    }
}

/// The number of bytes of the JSON text of `value`, 0 where it has none.
pub fn json_len(value: &Value) -> (len: usize)
    ensures
        len == encoding_size(json_encoding(*value)),
{
    let encoded = encode_json(value);
    encoded_len(&encoded)
}

} // verus!
