//! The request JSON-RPC object.

pub mod builder;

use crate::error::Error;
use crate::id::{id_json_ok, id_of_json, id_to_jsonv, Id, IdV};
use crate::json::{
    check_keys, fields_view, keys_allowed, keys_unique, lemma_fields_view,
    lemma_obj_get_first_match, lemma_obj_get_no_match, obj_get, strings_view, Json, JsonV,
};
use crate::params::{params_shape_ok, Params};
use crate::version::{version_deserialize, version_ok};
use crate::wire::{lemma_wire_keys_distinct, parse_json, parse_of, render_json, text_of, wire_safe};
use vstd::prelude::*;

verus! {

/// The JSON-RPC Request Object: a version tag, a non-empty method name, an
/// optional structured params payload, and a required id.  The presence of
/// the id is what distinguishes a request from a notification.
#[derive(Debug)]
pub struct Request {
    pub method: String,
    pub params: Option<Params>,
    pub id: Id,
}

/// The mathematical value of a [`Request`].
pub struct ReqV {
    pub method: Seq<char>,
    pub params: Option<JsonV>,
    pub id: IdV,
}

impl View for Request {
    type V = ReqV;

    open spec fn view(&self) -> ReqV {
        ReqV {
            method: self.method@,
            params: match self.params {
                Some(p) => Some(p@),
                None => None,
            },
            id: self.id@,
        }
    }
}

impl ReqV {
    /// Whether this request is well formed: the method is non-empty and the
    /// params, when present, are an object or an array.
    pub open spec fn wf(self) -> bool {
        &&& self.method.len() > 0
        &&& (self.params matches Some(p) ==> params_shape_ok(p))
    }

    /// Whether this request's encoding survives a render/parse round trip:
    /// well formed, with wire-safe params and a wire-safe id.
    pub open spec fn wire_ok(self) -> bool {
        &&& self.wf()
        &&& (self.params matches Some(p) ==> wire_safe(p))
        &&& wire_safe(id_to_jsonv(self.id))
    }
}

/// The member list a request encodes to: the version tag, the method, the
/// params (only when present) and the id, in this order.
pub open spec fn request_fields(r: ReqV) -> Seq<(Seq<char>, JsonV)> {
    match r.params {
        Some(p) => seq![
            ("jsonrpc"@, JsonV::Str("2.0"@)),
            ("method"@, JsonV::Str(r.method)),
            ("params"@, p),
            ("id"@, id_to_jsonv(r.id)),
        ],
        None => seq![
            ("jsonrpc"@, JsonV::Str("2.0"@)),
            ("method"@, JsonV::Str(r.method)),
            ("id"@, id_to_jsonv(r.id)),
        ],
    }
}

/// The JSON value a request encodes to.
pub open spec fn request_to_jsonv(r: ReqV) -> JsonV {
    JsonV::Obj(request_fields(r))
}

/// The keys a request object may carry.
pub open spec fn request_allowed_keys() -> Seq<Seq<char>> {
    seq!["jsonrpc"@, "method"@, "params"@, "id"@]
}

/// Whether a JSON value is a well-formed request object: an object with
/// pairwise-distinct keys drawn from the four request keys, the version tag
/// `"2.0"`, a non-empty string method, structured params when present, and a
/// legal id.
pub open spec fn json_is_request(j: JsonV) -> bool {
    &&& j matches JsonV::Obj(fs)
    &&& keys_unique(j->Obj_0)
    &&& keys_allowed(j->Obj_0, request_allowed_keys())
    &&& version_ok_at(j->Obj_0)
    &&& (obj_get(j->Obj_0, "method"@) matches Some(JsonV::Str(m)) && m.len() > 0)
    &&& (obj_get(j->Obj_0, "params"@) matches Some(p) ==> params_shape_ok(p))
    &&& (obj_get(j->Obj_0, "id"@) matches Some(v) && id_json_ok(v))
}

/// Whether a member list carries the version tag `"2.0"` under "jsonrpc".
pub open spec fn version_ok_at(fs: Seq<(Seq<char>, JsonV)>) -> bool {
    obj_get(fs, "jsonrpc"@) matches Some(v) && version_ok(v)
}

/// The request stored in a well-formed request JSON value.
pub open spec fn request_of_json(j: JsonV) -> ReqV
    recommends
        json_is_request(j),
{
    ReqV {
        method: match obj_get(j->Obj_0, "method"@) {
            Some(JsonV::Str(m)) => m,
            _ => Seq::empty(),
        },
        params: obj_get(j->Obj_0, "params"@),
        id: match obj_get(j->Obj_0, "id"@) {
            Some(v) => id_of_json(v),
            None => IdV::Null,
        },
    }
}

impl Request {
    /// A staged builder for a request; `build` becomes available once a
    /// method and an id have been supplied.
    pub fn builder() -> (r: builder::Builder<builder::MethodNone, builder::IdNone>)
        ensures
            r.params is None,
    {
        builder::Builder::new()
    }

    /// Reads a request out of a JSON value, rejecting every violation of the
    /// request shape.
    pub fn from_json(j: &Json) -> (r: Result<Request, Error>)
        ensures
            r is Ok <==> json_is_request(j@),
            r matches Ok(req) ==> req@ == request_of_json(j@) && req@.wf(),
            r matches Err(e) ==> e is Decode || e is InvalidType,
    {
        let fields = match j {
            Json::Obj(fs) => fs,
            _ => {
                return Err(Error::Decode(String::from_str("request must be a JSON object")));
            },
        };
        proof {
            lemma_fields_view(fields@);
        }
        let mut allowed: Vec<String> = Vec::new();
        allowed.push(String::from_str("jsonrpc"));
        allowed.push(String::from_str("method"));
        allowed.push(String::from_str("params"));
        allowed.push(String::from_str("id"));
        proof {
            assert(strings_view(allowed@) =~= request_allowed_keys());
        }
        if !check_keys(fields, &allowed) {
            return Err(
                Error::Decode(
                    String::from_str("request keys must be jsonrpc, method, params, id, each once"),
                ),
            );
        }
        match Json::obj_find(fields, "jsonrpc") {
            Some(v) => match version_deserialize(v) {
                Ok(_) => (),
                Err(e) => {
                    return Err(e);
                },
            },
            None => {
                return Err(Error::Decode(String::from_str("\"jsonrpc\" is missing")));
            },
        }
        let method = match Json::obj_find(fields, "method") {
            Some(v) => match v {
                Json::Str(m) => {
                    if m.as_str().is_empty() {
                        return Err(Error::Decode(String::from_str("\"method\" must be non-empty")));
                    }
                    m.clone()
                },
                _ => {
                    return Err(Error::Decode(String::from_str("\"method\" must be a string")));
                },
            },
            None => {
                return Err(Error::Decode(String::from_str("\"method\" is missing")));
            },
        };
        let params = match Json::obj_find(fields, "params") {
            Some(v) => match Params::from_json(v.deep_copy()) {
                Ok(p) => Some(p),
                Err(e) => {
                    return Err(e);
                },
            },
            None => None,
        };
        let id = match Json::obj_find(fields, "id") {
            Some(v) => match Id::from_json(v) {
                Ok(id) => id,
                Err(e) => {
                    return Err(e);
                },
            },
            None => {
                return Err(Error::Decode(String::from_str("\"id\" is missing")));
            },
        };
        Ok(Request { method, params, id })
    }

    /// Parses a text and reads a request out of it.
    pub fn from_str(s: &str) -> (r: Result<Request, Error>)
        ensures
            r is Ok <==> (parse_of(s@) matches Some(j) && json_is_request(j)),
            r matches Ok(req) ==> (parse_of(s@) matches Some(j) && req@ == request_of_json(j)
                && req@.wf()),
            r matches Err(e) ==> e is Decode || e is InvalidType || e is Serde,
            parse_of(s@) is None ==> (r matches Err(e) && e is Serde),
    {
        match parse_json(s) {
            Ok(j) => Request::from_json(&j),
            Err(e) => Err(e),
        }
    }

    /// Writes this request as the JSON value that encodes it.
    pub fn to_json(self) -> (r: Json)
        ensures
            r@ == request_to_jsonv(self@),
    {
        let ghost rv = self@;
        let Request { method, params, id } = self;
        let mut fields: Vec<(String, Json)> = Vec::new();
        fields.push((String::from_str("jsonrpc"), Json::Str(String::from_str("2.0"))));
        fields.push((String::from_str("method"), Json::Str(method)));
        match params {
            Some(p) => {
                fields.push((String::from_str("params"), p.0));
            },
            None => (),
        }
        fields.push((String::from_str("id"), id.to_json()));
        proof {
            lemma_fields_view(fields@);
            assert(fields_view(fields@) =~= request_fields(rv));
        }
        Json::Obj(fields)
    }

    /// Renders this request to JSON text; succeeds on every wire-safe
    /// request.
    pub fn into_string(self) -> (r: Result<String, Error>)
        ensures
            r matches Ok(s) ==> s@ == text_of(request_to_jsonv(self@)),
            self@.wire_ok() ==> r is Ok,
            self@.wire_ok() ==> (r matches Ok(s) && parse_of(s@) == Some(
                request_to_jsonv(self@),
            )),
    {
        proof {
            if self@.wire_ok() {
                lemma_request_wire_safe(self@);
            }
        }
        let j = self.to_json();
        render_json(&j)
    }

    /// The version tag every request carries.
    pub fn version(&self) -> (r: String)
        ensures
            r@ == "2.0"@,
    {
        String::from_str("2.0")
    }
}

/// The encoding of a wire-ok request is a wire-safe tree.
pub proof fn lemma_request_wire_safe(r: ReqV)
    requires
        r.wire_ok(),
    ensures
        wire_safe(request_to_jsonv(r)),
{
    lemma_wire_keys_distinct();
    let fs = request_fields(r);
    assert(wire_safe(JsonV::Str("2.0"@)));
    assert(wire_safe(JsonV::Str(r.method)));
    assert(forall|i: int, k: int| 0 <= i < k < fs.len() ==> fs[i].0 != fs[k].0);
    assert(forall|i: int| 0 <= i < fs.len() ==> wire_safe(#[trigger] fs[i].1));
}

/// Decoding inverts encoding: every well-formed request decodes back from
/// its own JSON encoding, field for field.
pub proof fn lemma_request_round_trip(r: ReqV)
    requires
        r.wf(),
    ensures
        json_is_request(request_to_jsonv(r)),
        request_of_json(request_to_jsonv(r)) == r,
{
    lemma_wire_keys_distinct();
    let fs = request_fields(r);
    let keys = request_allowed_keys();
    assert(keys[0] == "jsonrpc"@);
    assert(keys[1] == "method"@);
    assert(keys[2] == "params"@);
    assert(keys[3] == "id"@);
    match r.params {
        Some(p) => {
            assert(fs.len() == 4);
            lemma_obj_get_first_match(fs, "jsonrpc"@, 0);
            lemma_obj_get_first_match(fs, "method"@, 1);
            lemma_obj_get_first_match(fs, "params"@, 2);
            lemma_obj_get_first_match(fs, "id"@, 3);
            assert(keys.contains(fs[0].0));
            assert(keys.contains(fs[1].0));
            assert(keys.contains(fs[2].0));
            assert(keys.contains(fs[3].0));
        },
        None => {
            assert(fs.len() == 3);
            lemma_obj_get_first_match(fs, "jsonrpc"@, 0);
            lemma_obj_get_first_match(fs, "method"@, 1);
            lemma_obj_get_first_match(fs, "id"@, 2);
            assert(forall|j: int| 0 <= j < fs.len() ==> fs[j].0 != "params"@);
            lemma_obj_get_no_match(fs, "params"@);
            assert(keys.contains(fs[0].0));
            assert(keys.contains(fs[1].0));
            assert(keys.contains(fs[2].0));
        },
    }
    assert(id_of_json(id_to_jsonv(r.id)) == r.id);
    assert(request_of_json(request_to_jsonv(r)) == r);
}

} // verus!
