//! The result decoder: the terminal payload held against the expected
//! output shape.

use vstd::prelude::*;
use vstd::string::StringExecFns;

use crate::error::Error;
use crate::json::{JsonValue, Schema, matches_schema, matches_value};

verus! {

/// The message carried by a `Deserialization` error.
pub open spec fn payload_mismatch_message() -> Seq<char> {
    "terminal payload does not match the expected output shape"@
}

/// Validates the terminal payload against the expected output shape.
///
/// All or nothing: the payload comes back whole exactly when it conforms;
/// otherwise a `Deserialization` error is returned and no partial value
/// exists. Nothing is retried — the caller cannot compel the agent to
/// reformat.
pub fn decode(expected: &Schema, payload: JsonValue) -> (r: Result<JsonValue, Error>)
    ensures
        matches_schema(*expected, payload) ==> r == Result::<JsonValue, Error>::Ok(payload),
        !matches_schema(*expected, payload) ==> (r matches Err(e) && e matches
            Error::Deserialization(m) && m@ == payload_mismatch_message()),
{
    if matches_value(expected, &payload) {
        Ok(payload)
    } else {
        let mut m = String::new();
        m.append("terminal payload does not match the expected output shape");
        Err(Error::Deserialization(m))
    }
}

} // verus!
