//! The boundary to the textual JSON layer.
//!
//! Everything this crate knows about JSON text is concentrated here: a parser
//! from text to a [`Json`] tree and a renderer back to text, both backed by
//! `serde_json`.  The two uninterpreted functions [`parse_of`] and [`text_of`]
//! name the outcome of those calls, and [`wire_safe`] delimits the trees whose
//! rendered text re-parses to the very same tree.

use crate::error::Error;
use crate::json::{Json, JsonV};
use vstd::prelude::*;

verus! {

/// The tree that `serde_json` reads out of a text, if the text parses.
pub uninterp spec fn parse_of(s: Seq<char>) -> Option<JsonV>;

/// The text that `serde_json` writes for a tree.
pub uninterp spec fn text_of(j: JsonV) -> Seq<char>;

/// Whether a tree survives a render/parse round trip unchanged: every object
/// holds pairwise-distinct keys, and every `Frac` node carries the canonical
/// text of a number outside the signed 64-bit integer form (the text the
/// parser itself would produce for it).
pub open spec fn wire_safe(j: JsonV) -> bool
    decreases j,
{
    match j {
        JsonV::Frac(t) => parse_of(t) == Some(JsonV::Frac(t)),
        JsonV::Arr(items) => forall|i: int| 0 <= i < items.len() ==> wire_safe(#[trigger] items[i]),
        JsonV::Obj(fields) => {
            &&& forall|i: int, k: int|
                0 <= i < k < fields.len() ==> (#[trigger] fields[i].0) != (#[trigger] fields[k].0)
            &&& forall|i: int| 0 <= i < fields.len() ==> wire_safe(#[trigger] fields[i].1)
        },
        _ => true,
    }
}


/// The key names the envelopes use on the wire are pairwise distinct.
pub proof fn lemma_wire_keys_distinct()
    ensures
        "jsonrpc"@ != "method"@,
        "jsonrpc"@ != "params"@,
        "jsonrpc"@ != "id"@,
        "jsonrpc"@ != "result"@,
        "jsonrpc"@ != "error"@,
        "method"@ != "params"@,
        "method"@ != "id"@,
        "params"@ != "id"@,
        "id"@ != "result"@,
        "id"@ != "error"@,
        "result"@ != "error"@,
        "code"@ != "message"@,
        "code"@ != "data"@,
        "message"@ != "data"@,
{
    reveal_strlit("jsonrpc");
    reveal_strlit("method");
    reveal_strlit("params");
    reveal_strlit("id");
    reveal_strlit("result");
    reveal_strlit("error");
    reveal_strlit("code");
    reveal_strlit("message");
    reveal_strlit("data");
    assert("jsonrpc"@.len() == 7 && "method"@.len() == 6 && "params"@.len() == 6);
    assert("id"@.len() == 2 && "result"@.len() == 6 && "error"@.len() == 5);
    assert("code"@.len() == 4 && "message"@.len() == 7 && "data"@.len() == 4);
    assert("method"@[0] == 'm' && "params"@[0] == 'p' && "result"@[0] == 'r');
    assert("code"@[0] == 'c' && "data"@[0] == 'd');
}

#[verifier::external_type_specification]
#[verifier::external_body]
pub struct ExValue(serde_json::Value);

#[verifier::external_type_specification]
#[verifier::external_body]
pub struct ExNumber(serde_json::Number);

/// Relies on `serde_json::Number::as_i64` and the `Display` form of
/// `serde_json::Number`: a number stored as an integer in signed 64-bit range
/// becomes `Int`; any other number keeps its canonical decimal text.
#[verifier::external_body]
fn number_to_json(n: serde_json::Number) -> Json {
    match n.as_i64() {
        Some(i) => Json::Int(i),
        None => Json::Frac(n.to_string()),
    }
}

/// Relies on the shape of `serde_json::Value`: each variant becomes the
/// matching tree node, recursively.
#[verifier::external_body]
fn value_to_json(v: serde_json::Value) -> Json {
    match v {
        serde_json::Value::Null => Json::Null,
        serde_json::Value::Bool(b) => Json::Bool(b),
        serde_json::Value::Number(n) => number_to_json(n),
        serde_json::Value::String(s) => Json::Str(s),
        serde_json::Value::Array(a) => Json::Arr(a.into_iter().map(value_to_json).collect()),
        serde_json::Value::Object(m) => Json::Obj(
            m.into_iter().map(|(k, w)| (k, value_to_json(w))).collect(),
        ),
    }
}

/// Relies on `serde_json::from_str::<serde_json::Value>`: the same text always
/// parses to the same value, a parsed object holds pairwise-distinct keys, and
/// a parsed number outside the signed 64-bit integer form carries its own
/// canonical text, so every parsed tree is wire-safe.
#[verifier::external_body]
pub fn parse_json(s: &str) -> (r: Result<Json, Error>)
    ensures
        (r is Ok) == (parse_of(s@) is Some),
        r matches Ok(j) ==> Some(j@) == parse_of(s@) && wire_safe(j@),
        r matches Err(e) ==> e is Serde,
{
    match serde_json::from_str::<serde_json::Value>(s) {
        Ok(v) => Ok(value_to_json(v)),
        Err(e) => Err(Error::Serde(e.to_string())),
    }
}

/// Relies on `serde_json::from_str::<serde_json::Value>`: re-reads a stored
/// number text.  A `Frac` text that is no JSON value renders as `null`.
#[verifier::external_body]
fn frac_to_value(t: &str) -> serde_json::Value {
    serde_json::from_str::<serde_json::Value>(t).unwrap_or(serde_json::Value::Null)
}

/// Relies on the shape of `serde_json::Value`: each tree node becomes the
/// matching variant, recursively.
#[verifier::external_body]
fn json_to_value(j: &Json) -> serde_json::Value {
    match j {
        Json::Null => serde_json::Value::Null,
        Json::Bool(b) => serde_json::Value::Bool(*b),
        Json::Int(i) => serde_json::Value::Number(serde_json::Number::from(*i)),
        Json::Frac(t) => frac_to_value(t.as_str()),
        Json::Str(s) => serde_json::Value::String(s.clone()),
        Json::Arr(items) => serde_json::Value::Array(items.iter().map(json_to_value).collect()),
        Json::Obj(fields) => serde_json::Value::Object(
            fields.iter().map(|(k, w)| (k.clone(), json_to_value(w))).collect(),
        ),
    }
}

/// Relies on `serde_json::to_string` over a `serde_json::Value` built with
/// insertion-ordered maps: the same tree always renders to the same text, the
/// serializer never fails on such a value, and the text of a wire-safe tree
/// re-parses to the very same tree.
#[verifier::external_body]
pub fn render_json(j: &Json) -> (r: Result<String, Error>)
    ensures
        r matches Ok(s) ==> s@ == text_of(j@) && (wire_safe(j@) ==> parse_of(s@) == Some(j@)),
        r matches Err(e) ==> e is Serde,
        wire_safe(j@) ==> r is Ok,
{
    serde_json::to_string(&json_to_value(j)).map_err(|e| Error::Serde(e.to_string()))
}

} // verus!
