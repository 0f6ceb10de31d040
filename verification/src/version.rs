//! The validator for the "jsonrpc" version tag.

use crate::error::Error;
use crate::json::{Json, JsonV};
use crate::json::str_eq;
use vstd::prelude::*;

verus! {

/// Whether a JSON value is the version tag every envelope must carry: the
/// JSON string `"2.0"` (the bare number `2.0` is a different JSON type and is
/// not accepted).
pub open spec fn version_ok(j: JsonV) -> bool {
    j == JsonV::Str("2.0"@)
}

/// Reads the "jsonrpc" version tag out of a JSON value.
///
/// Returns the tag unchanged when it is the string `"2.0"`.  A string with
/// any other value is a decode error naming that value; a value that is not
/// a string at all is reported distinctly, as a type error.
pub fn version_deserialize(j: &Json) -> (r: Result<String, Error>)
    ensures
        r is Ok <==> version_ok(j@),
        r matches Ok(s) ==> s@ == "2.0"@,
        r matches Err(e) ==> (if j@ is Str {
            e is Decode
        } else {
            e is InvalidType
        }),
        r matches Err(e) ==> (j@ matches JsonV::Str(s) ==> e.message_view()
            == "jsonrpc version NOT 2.0: "@ + s),
{
    match j {
        Json::Str(s) => {
            if str_eq(s.as_str(), "2.0") {
                Ok(s.clone())
            } else {
                let mut m = String::from_str("jsonrpc version NOT 2.0: ");
                m.append(s.as_str());
                Err(Error::Decode(m))
            }
        },
        _ => Err(
            Error::InvalidType(String::from_str("jsonrpc version MUST be the string \"2.0\"")),
        ),
    }
}

} // verus!
