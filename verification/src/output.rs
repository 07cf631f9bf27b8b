use crate::error::NodeRunnerError;
use vstd::prelude::*;

verus! {

/// `serde_json::Error`, carried through as an opaque value.
#[verifier::external_type_specification]
#[verifier::external_body]
pub struct ExJsonError(serde_json::Error);

/// The integer that `serde_json` reads out of `text`.
///
/// `None`: `text` is not one JSON document. `Some(None)`: it is one, but not
/// an integer that fits a signed 64-bit number. `Some(Some(n))`: it is the
/// integer `n`.
pub uninterp spec fn json_integer(text: Seq<char>) -> Option<Option<i64>>;

/// A decoding result without the decoder's error value.
pub open spec fn decoded_integer(decoded: Result<Option<i64>, serde_json::Error>) -> Option<
    Option<i64>,
> {
    match decoded {
        Ok(number) => Some(number),
        Err(_) => None,
    }
}

/// Decodes `text` with `serde_json::from_str` into a `serde_json::Value` and
/// reads that value with `Value::as_i64`.
///
/// Trusted: the outcome depends on `text` alone, and is what `json_integer`
/// names. Nothing is claimed of the grammar that the decoder accepts.
#[verifier::external_body]
fn decode_json_integer(text: &str) -> (decoded: Result<Option<i64>, serde_json::Error>)
    ensures
        decoded_integer(decoded) == json_integer(text@),
{
    match serde_json::from_str::<serde_json::Value>(text) {
        Ok(value) => Ok(value.as_i64()),
        Err(error) => Err(error),
    }
}

/// The block height that a decoded diagnostic output stands for: the integer
/// where there is one, `MalformedOutput` in every other case.
pub open spec fn block_count_of(decoded: Option<Option<i64>>) -> Result<i64, NodeRunnerError> {
    match decoded {
        Some(Some(height)) => Ok(height),
        _ => Err(NodeRunnerError::MalformedOutput),
    }
}

/// Turns the decoder's result into a block height.
///
/// Output that is no JSON document and a document that is no 64-bit integer
/// are both reported as `MalformedOutput`.
pub fn block_count_from_decoded(decoded: Result<Option<i64>, serde_json::Error>) -> (result:
    Result<i64, NodeRunnerError>)
    ensures
        result == block_count_of(decoded_integer(decoded)),
{
    match decoded {
        Ok(Some(height)) => Ok(height),
        Ok(None) => Err(NodeRunnerError::MalformedOutput),
        Err(_) => Err(NodeRunnerError::MalformedOutput),
    }
}

/// Reads the block height out of the first chunk of diagnostic output.
///
/// The chunk is consulted as it stands: a JSON integer that is cut at the
/// chunk's end, or followed by anything but white space, is malformed.
pub fn block_count_from_output(chunk: &str) -> (result: Result<i64, NodeRunnerError>)
    ensures
        result == block_count_of(json_integer(chunk@)),
{
    block_count_from_decoded(decode_json_integer(chunk))
}

} // verus!
