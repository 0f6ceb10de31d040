//! The notification JSON-RPC object.

pub mod builder;

use crate::error::Error;
use crate::json::{
    check_keys, fields_view, keys_allowed, keys_unique, lemma_fields_view,
    lemma_obj_get_first_match, lemma_obj_get_no_match, obj_get, strings_view, Json, JsonV,
};
use crate::params::{params_shape_ok, Params};
use crate::request::version_ok_at;
use crate::version::version_deserialize;
use crate::wire::{lemma_wire_keys_distinct, parse_json, parse_of, render_json, text_of, wire_safe};
use vstd::prelude::*;

verus! {

/// The JSON-RPC Notification Object: structurally a request without an id.
/// The absence of the id key is the sole discriminant between "this expects
/// a reply" and "fire-and-forget", so a notification object must not carry
/// an id key at all.
#[derive(Debug)]
pub struct Notification {
    pub method: String,
    pub params: Option<Params>,
}

/// The mathematical value of a [`Notification`].
pub struct NotifV {
    pub method: Seq<char>,
    pub params: Option<JsonV>,
}

impl View for Notification {
    type V = NotifV;

    open spec fn view(&self) -> NotifV {
        NotifV {
            method: self.method@,
            params: match self.params {
                Some(p) => Some(p@),
                None => None,
            },
        }
    }
}

impl NotifV {
    /// Whether this notification is well formed: the method is non-empty and
    /// the params, when present, are an object or an array.
    pub open spec fn wf(self) -> bool {
        &&& self.method.len() > 0
        &&& (self.params matches Some(p) ==> params_shape_ok(p))
    }

    /// Whether this notification's encoding survives a render/parse round
    /// trip: well formed, with wire-safe params.
    pub open spec fn wire_ok(self) -> bool {
        &&& self.wf()
        &&& (self.params matches Some(p) ==> wire_safe(p))
    }
}

/// The member list a notification encodes to: the version tag, the method
/// and the params (only when present), in this order.
pub open spec fn notification_fields(n: NotifV) -> Seq<(Seq<char>, JsonV)> {
    match n.params {
        Some(p) => seq![
            ("jsonrpc"@, JsonV::Str("2.0"@)),
            ("method"@, JsonV::Str(n.method)),
            ("params"@, p),
        ],
        None => seq![("jsonrpc"@, JsonV::Str("2.0"@)), ("method"@, JsonV::Str(n.method))],
    }
}

/// The JSON value a notification encodes to.
pub open spec fn notification_to_jsonv(n: NotifV) -> JsonV {
    JsonV::Obj(notification_fields(n))
}

/// The keys a notification object may carry; an id key is not among them.
pub open spec fn notification_allowed_keys() -> Seq<Seq<char>> {
    seq!["jsonrpc"@, "method"@, "params"@]
}

/// Whether a JSON value is a well-formed notification object: an object with
/// pairwise-distinct keys drawn from the three notification keys (so no id),
/// the version tag `"2.0"`, a non-empty string method, and structured params
/// when present.
pub open spec fn json_is_notification(j: JsonV) -> bool {
    &&& j matches JsonV::Obj(fs)
    &&& keys_unique(j->Obj_0)
    &&& keys_allowed(j->Obj_0, notification_allowed_keys())
    &&& version_ok_at(j->Obj_0)
    &&& (obj_get(j->Obj_0, "method"@) matches Some(JsonV::Str(m)) && m.len() > 0)
    &&& (obj_get(j->Obj_0, "params"@) matches Some(p) ==> params_shape_ok(p))
}

/// The notification stored in a well-formed notification JSON value.
pub open spec fn notification_of_json(j: JsonV) -> NotifV
    recommends
        json_is_notification(j),
{
    NotifV {
        method: match obj_get(j->Obj_0, "method"@) {
            Some(JsonV::Str(m)) => m,
            _ => Seq::empty(),
        },
        params: obj_get(j->Obj_0, "params"@),
    }
}

impl Notification {
    /// A staged builder for a notification; `build` becomes available once a
    /// method has been supplied.
    pub fn builder() -> (r: builder::Builder<builder::MethodNone>)
        ensures
            r.params is None,
    {
        builder::Builder::new()
    }

    /// Reads a notification out of a JSON value, rejecting every violation
    /// of the notification shape.
    pub fn from_json(j: &Json) -> (r: Result<Notification, Error>)
        ensures
            r is Ok <==> json_is_notification(j@),
            r matches Ok(n) ==> n@ == notification_of_json(j@) && n@.wf(),
            r matches Err(e) ==> e is Decode || e is InvalidType,
    {
        let fields = match j {
            Json::Obj(fs) => fs,
            _ => {
                return Err(Error::Decode(String::from_str("notification must be a JSON object")));
            },
        };
        proof {
            lemma_fields_view(fields@);
        }
        let mut allowed: Vec<String> = Vec::new();
        allowed.push(String::from_str("jsonrpc"));
        allowed.push(String::from_str("method"));
        allowed.push(String::from_str("params"));
        proof {
            assert(strings_view(allowed@) =~= notification_allowed_keys());
        }
        if !check_keys(fields, &allowed) {
            return Err(
                Error::Decode(
                    String::from_str("notification keys must be jsonrpc, method, params, each once"),
                ),
            );
        }
        match Json::obj_find(fields, "jsonrpc") {
            Some(v) => match version_deserialize(v) {
                Ok(_) => (),
                Err(e) => {
                    return Err(e);
                },
            },
            None => {
                return Err(Error::Decode(String::from_str("\"jsonrpc\" is missing")));
            },
        }
        let method = match Json::obj_find(fields, "method") {
            Some(v) => match v {
                Json::Str(m) => {
                    if m.as_str().is_empty() {
                        return Err(Error::Decode(String::from_str("\"method\" must be non-empty")));
                    }
                    m.clone()
                },
                _ => {
                    return Err(Error::Decode(String::from_str("\"method\" must be a string")));
                },
            },
            None => {
                return Err(Error::Decode(String::from_str("\"method\" is missing")));
            },
        };
        let params = match Json::obj_find(fields, "params") {
            Some(v) => match Params::from_json(v.deep_copy()) {
                Ok(p) => Some(p),
                Err(e) => {
                    return Err(e);
                },
            },
            None => None,
        };
        Ok(Notification { method, params })
    }

    /// Parses a text and reads a notification out of it.
    pub fn from_str(s: &str) -> (r: Result<Notification, Error>)
        ensures
            r is Ok <==> (parse_of(s@) matches Some(j) && json_is_notification(j)),
            r matches Ok(n) ==> (parse_of(s@) matches Some(j) && n@ == notification_of_json(j)
                && n@.wf()),
            r matches Err(e) ==> e is Decode || e is InvalidType || e is Serde,
            parse_of(s@) is None ==> (r matches Err(e) && e is Serde),
    {
        match parse_json(s) {
            Ok(j) => Notification::from_json(&j),
            Err(e) => Err(e),
        }
    }

    /// Writes this notification as the JSON value that encodes it.
    pub fn to_json(self) -> (r: Json)
        ensures
            r@ == notification_to_jsonv(self@),
    {
        let ghost nv = self@;
        let Notification { method, params } = self;
        let mut fields: Vec<(String, Json)> = Vec::new();
        fields.push((String::from_str("jsonrpc"), Json::Str(String::from_str("2.0"))));
        fields.push((String::from_str("method"), Json::Str(method)));
        match params {
            Some(p) => {
                fields.push((String::from_str("params"), p.0));
            },
            None => (),
        }
        proof {
            lemma_fields_view(fields@);
            assert(fields_view(fields@) =~= notification_fields(nv));
        }
        Json::Obj(fields)
    }

    /// Renders this notification to JSON text; succeeds on every wire-safe
    /// notification.
    pub fn into_string(self) -> (r: Result<String, Error>)
        ensures
            r matches Ok(s) ==> s@ == text_of(notification_to_jsonv(self@)),
            self@.wire_ok() ==> r is Ok,
            self@.wire_ok() ==> (r matches Ok(s) && parse_of(s@) == Some(
                notification_to_jsonv(self@),
            )),
    {
        proof {
            if self@.wire_ok() {
                lemma_notification_wire_safe(self@);
            }
        }
        let j = self.to_json();
        render_json(&j)
    }

    /// The version tag every notification carries.
    pub fn version(&self) -> (r: String)
        ensures
            r@ == "2.0"@,
    {
        String::from_str("2.0")
    }
}

/// The encoding of a wire-ok notification is a wire-safe tree.
pub proof fn lemma_notification_wire_safe(n: NotifV)
    requires
        n.wire_ok(),
    ensures
        wire_safe(notification_to_jsonv(n)),
{
    lemma_wire_keys_distinct();
    let fs = notification_fields(n);
    assert(wire_safe(JsonV::Str("2.0"@)));
    assert(wire_safe(JsonV::Str(n.method)));
    assert(forall|i: int, k: int| 0 <= i < k < fs.len() ==> fs[i].0 != fs[k].0);
    assert(forall|i: int| 0 <= i < fs.len() ==> wire_safe(#[trigger] fs[i].1));
}

/// Decoding inverts encoding: every well-formed notification decodes back
/// from its own JSON encoding, field for field.
pub proof fn lemma_notification_round_trip(n: NotifV)
    requires
        n.wf(),
    ensures
        json_is_notification(notification_to_jsonv(n)),
        notification_of_json(notification_to_jsonv(n)) == n,
{
    lemma_wire_keys_distinct();
    let fs = notification_fields(n);
    let keys = notification_allowed_keys();
    assert(keys[0] == "jsonrpc"@);
    assert(keys[1] == "method"@);
    assert(keys[2] == "params"@);
    match n.params {
        Some(p) => {
            assert(fs.len() == 3);
            lemma_obj_get_first_match(fs, "jsonrpc"@, 0);
            lemma_obj_get_first_match(fs, "method"@, 1);
            lemma_obj_get_first_match(fs, "params"@, 2);
            assert(keys.contains(fs[0].0));
            assert(keys.contains(fs[1].0));
            assert(keys.contains(fs[2].0));
        },
        None => {
            assert(fs.len() == 2);
            lemma_obj_get_first_match(fs, "jsonrpc"@, 0);
            lemma_obj_get_first_match(fs, "method"@, 1);
            assert(forall|j: int| 0 <= j < fs.len() ==> fs[j].0 != "params"@);
            lemma_obj_get_no_match(fs, "params"@);
            assert(keys.contains(fs[0].0));
            assert(keys.contains(fs[1].0));
        },
    }
    assert(notification_of_json(notification_to_jsonv(n)) == n);
}

} // verus!
