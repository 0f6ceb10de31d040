//! The structured "params" payload of requests and notifications.

use crate::error::Error;
use crate::json::{Json, JsonV};
use crate::wire::{parse_json, parse_of, render_json, text_of, wire_safe};
use vstd::prelude::*;

verus! {

/// The "params" field of a JSON-RPC object.
///
/// Params can only be a structured value: a JSON object (by-name arguments)
/// or a JSON array (by-position arguments).  The constructors reject every
/// other shape; a `Params` built through them is always well formed.
#[derive(Debug)]
pub struct Params(pub Json);

impl View for Params {
    type V = JsonV;

    open spec fn view(&self) -> JsonV {
        self.0@
    }
}

/// Whether a JSON value has the only two shapes params may take.
pub open spec fn params_shape_ok(j: JsonV) -> bool {
    j is Arr || j is Obj
}

impl Params {
    /// Whether this params value is well formed: an object or an array.
    pub open spec fn wf(self) -> bool {
        params_shape_ok(self@)
    }

    /// Wraps a JSON value as params; any value that is not an object or an
    /// array is rejected.
    pub fn from_json(value: Json) -> (r: Result<Params, Error>)
        ensures
            r is Ok <==> params_shape_ok(value@),
            r matches Ok(p) ==> p@ == value@ && p.wf(),
            r matches Err(e) ==> (e matches Error::Decode(m) && m@
                == "\"params\" must be a JSON object or array"@),
    {
        match value {
            Json::Arr(items) => Ok(Params(Json::Arr(items))),
            Json::Obj(fields) => Ok(Params(Json::Obj(fields))),
            _ => Err(
                Error::Decode(String::from_str("\"params\" must be a JSON object or array")),
            ),
        }
    }

    /// Parses a text as JSON and wraps it as params; unparsable text (empty
    /// text included) and any scalar shape are rejected.
    pub fn from_text(s: &str) -> (r: Result<Params, Error>)
        ensures
            r is Ok <==> (parse_of(s@) matches Some(j) && params_shape_ok(j)),
            r matches Ok(p) ==> parse_of(s@) == Some(p@) && p.wf() && wire_safe(p@),
            r matches Err(e) ==> e is Serde || e is Decode,
            parse_of(s@) is None ==> (r matches Err(e) && e is Serde),
    {
        match parse_json(s) {
            Ok(j) => match Params::from_json(j) {
                Ok(p) => Ok(p),
                Err(e) => Err(e),
            },
            Err(e) => Err(e),
        }
    }

    /// Renders these params back to JSON text.
    pub fn into_string(self) -> (r: Result<String, Error>)
        ensures
            r matches Ok(s) ==> s@ == text_of(self@),
            wire_safe(self@) ==> r is Ok,
    {
        render_json(&self.0)
    }
}

} // verus!
