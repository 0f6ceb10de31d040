//! The response JSON-RPC object.

pub mod builder;

use crate::error::Error;
use crate::id::{id_json_ok, id_of_json, id_to_jsonv, Id, IdV};
use crate::json::{
    check_keys, fields_view, keys_allowed, keys_unique, lemma_fields_view,
    lemma_obj_get_first_match, lemma_obj_get_no_match, obj_get, strings_view, Json, JsonV,
};
use crate::request::version_ok_at;
use crate::version::version_deserialize;
use crate::wire::{lemma_wire_keys_distinct, parse_json, parse_of, render_json, text_of, wire_safe};
use vstd::prelude::*;

verus! {

/// The outcome carried by a [`Response`]: exactly one of a success (with an
/// arbitrary JSON result value) or an error (with a signed 32-bit code, a
/// message, and an optional arbitrary JSON data value).
#[derive(Debug)]
pub enum Status {
    Success(Json),
    Error { code: i32, message: String, data: Option<Json> },
}

/// The mathematical value of a [`Status`].
pub enum StatusV {
    Success(JsonV),
    Error { code: int, message: Seq<char>, data: Option<JsonV> },
}

impl View for Status {
    type V = StatusV;

    open spec fn view(&self) -> StatusV {
        match self {
            Status::Success(v) => StatusV::Success(v@),
            Status::Error { code, message, data } => StatusV::Error {
                code: *code as int,
                message: message@,
                data: match data {
                    Some(d) => Some(d@),
                    None => None,
                },
            },
        }
    }
}

/// The JSON-RPC Response Object: a version tag, a required id and a status.
#[derive(Debug)]
pub struct Response {
    pub id: Id,
    pub status: Status,
}

/// The mathematical value of a [`Response`].
pub struct RespV {
    pub id: IdV,
    pub status: StatusV,
}

impl View for Response {
    type V = RespV;

    open spec fn view(&self) -> RespV {
        RespV { id: self.id@, status: self.status@ }
    }
}

impl StatusV {
    /// Whether this status is well formed: an error code fits a signed
    /// 32-bit integer.
    pub open spec fn wf(self) -> bool {
        match self {
            StatusV::Success(_) => true,
            StatusV::Error { code, .. } => -0x8000_0000 <= code < 0x8000_0000,
        }
    }

    /// Whether this status only carries wire-safe payloads.
    pub open spec fn wire_ok(self) -> bool {
        match self {
            StatusV::Success(v) => wire_safe(v),
            StatusV::Error { data, .. } => data matches Some(d) ==> wire_safe(d),
        }
    }
}

impl RespV {
    /// Whether this response is well formed.
    pub open spec fn wf(self) -> bool {
        self.status.wf()
    }

    /// Whether this response's encoding survives a render/parse round trip:
    /// well formed, with wire-safe payloads and a wire-safe id.
    pub open spec fn wire_ok(self) -> bool {
        &&& self.wf()
        &&& self.status.wire_ok()
        &&& wire_safe(id_to_jsonv(self.id))
    }
}

/// The member list an error status encodes to: the code, the message, and
/// the data only when present, in this order.
pub open spec fn error_obj_fields(code: int, message: Seq<char>, data: Option<JsonV>) -> Seq<
    (Seq<char>, JsonV),
> {
    match data {
        Some(d) => seq![
            ("code"@, JsonV::Int(code)),
            ("message"@, JsonV::Str(message)),
            ("data"@, d),
        ],
        None => seq![("code"@, JsonV::Int(code)), ("message"@, JsonV::Str(message))],
    }
}

/// The JSON value a status encodes to under its key: the bare result value
/// for a success, the error object for an error.
pub open spec fn status_payload(s: StatusV) -> JsonV {
    match s {
        StatusV::Success(v) => v,
        StatusV::Error { code, message, data } => JsonV::Obj(error_obj_fields(code, message, data)),
    }
}

/// The member list a response encodes to: the version tag, the id, and then
/// exactly one of a "result" or an "error" member.
pub open spec fn response_fields(r: RespV) -> Seq<(Seq<char>, JsonV)> {
    seq![
        ("jsonrpc"@, JsonV::Str("2.0"@)),
        ("id"@, id_to_jsonv(r.id)),
        (if r.status is Success { "result"@ } else { "error"@ }, status_payload(r.status)),
    ]
}

/// The JSON value a response encodes to.
pub open spec fn response_to_jsonv(r: RespV) -> JsonV {
    JsonV::Obj(response_fields(r))
}

/// The keys a response object may carry.
pub open spec fn response_allowed_keys() -> Seq<Seq<char>> {
    seq!["jsonrpc"@, "id"@, "result"@, "error"@]
}

/// The keys an error object may carry.
pub open spec fn error_allowed_keys() -> Seq<Seq<char>> {
    seq!["code"@, "message"@, "data"@]
}

/// Whether a JSON value is a well-formed error object: an object with
/// pairwise-distinct keys drawn from code, message, data; a code that is an
/// integer in signed 32-bit range; and a string message.
pub open spec fn json_is_error_obj(j: JsonV) -> bool {
    &&& j matches JsonV::Obj(fs)
    &&& keys_unique(j->Obj_0)
    &&& keys_allowed(j->Obj_0, error_allowed_keys())
    &&& (obj_get(j->Obj_0, "code"@) matches Some(JsonV::Int(c)) && -0x8000_0000 <= c
        < 0x8000_0000)
    &&& (obj_get(j->Obj_0, "message"@) matches Some(v) && v is Str)
}

/// Whether a JSON value is a well-formed response object: an object with
/// pairwise-distinct keys drawn from the four response keys, the version tag
/// `"2.0"`, a legal id, and exactly one of a "result" member (any value,
/// null included) or an "error" member holding a well-formed error object.
pub open spec fn json_is_response(j: JsonV) -> bool {
    &&& j matches JsonV::Obj(fs)
    &&& keys_unique(j->Obj_0)
    &&& keys_allowed(j->Obj_0, response_allowed_keys())
    &&& version_ok_at(j->Obj_0)
    &&& (obj_get(j->Obj_0, "id"@) matches Some(v) && id_json_ok(v))
    &&& (obj_get(j->Obj_0, "result"@) is Some) != (obj_get(j->Obj_0, "error"@) is Some)
    &&& (obj_get(j->Obj_0, "error"@) matches Some(e) ==> json_is_error_obj(e))
}

/// The status stored in a well-formed error object.
pub open spec fn error_status_of_json(e: JsonV) -> StatusV
    recommends
        json_is_error_obj(e),
{
    StatusV::Error {
        code: match obj_get(e->Obj_0, "code"@) {
            Some(JsonV::Int(c)) => c,
            _ => 0,
        },
        message: match obj_get(e->Obj_0, "message"@) {
            Some(JsonV::Str(m)) => m,
            _ => Seq::empty(),
        },
        data: obj_get(e->Obj_0, "data"@),
    }
}

/// The response stored in a well-formed response JSON value.
pub open spec fn response_of_json(j: JsonV) -> RespV
    recommends
        json_is_response(j),
{
    RespV {
        id: match obj_get(j->Obj_0, "id"@) {
            Some(v) => id_of_json(v),
            None => IdV::Null,
        },
        status: match obj_get(j->Obj_0, "result"@) {
            Some(v) => StatusV::Success(v),
            None => match obj_get(j->Obj_0, "error"@) {
                Some(e) => error_status_of_json(e),
                None => StatusV::Success(JsonV::Null),
            },
        },
    }
}

impl Response {
    /// A staged builder for a response; a terminal `build` becomes available
    /// only once an id has been supplied and, on the error branch, a code
    /// and a message have both been set.
    pub fn builder() -> (r: builder::Builder<builder::IdNone>) {
        builder::Builder::new()
    }

    /// Reads a response out of a JSON value, rejecting every violation of
    /// the response shape; in particular an object carrying both or neither
    /// of "result" and "error" is rejected.
    pub fn from_json(j: &Json) -> (r: Result<Response, Error>)
        ensures
            r is Ok <==> json_is_response(j@),
            r matches Ok(resp) ==> resp@ == response_of_json(j@) && resp@.wf(),
            r matches Err(e) ==> e is Decode || e is InvalidType,
    {
        let fields = match j {
            Json::Obj(fs) => fs,
            _ => {
                return Err(Error::Decode(String::from_str("response must be a JSON object")));
            },
        };
        proof {
            lemma_fields_view(fields@);
        }
        let mut allowed: Vec<String> = Vec::new();
        allowed.push(String::from_str("jsonrpc"));
        allowed.push(String::from_str("id"));
        allowed.push(String::from_str("result"));
        allowed.push(String::from_str("error"));
        proof {
            assert(strings_view(allowed@) =~= response_allowed_keys());
        }
        if !check_keys(fields, &allowed) {
            return Err(
                Error::Decode(
                    String::from_str("response keys must be jsonrpc, id, result, error, each once"),
                ),
            );
        }
        match Json::obj_find(fields, "jsonrpc") {
            Some(v) => match version_deserialize(v) {
                Ok(_) => (),
                Err(e) => {
                    return Err(e);
                },
            },
            None => {
                return Err(Error::Decode(String::from_str("\"jsonrpc\" is missing")));
            },
        }
        let id = match Json::obj_find(fields, "id") {
            Some(v) => match Id::from_json(v) {
                Ok(id) => id,
                Err(e) => {
                    return Err(e);
                },
            },
            None => {
                return Err(Error::Decode(String::from_str("\"id\" is missing")));
            },
        };
        let status = match (Json::obj_find(fields, "result"), Json::obj_find(fields, "error")) {
            (Some(_), Some(_)) => {
                return Err(
                    Error::Decode(
                        String::from_str("response must have exactly one of result/error"),
                    ),
                );
            },
            (None, None) => {
                return Err(
                    Error::Decode(
                        String::from_str("response must have exactly one of result/error"),
                    ),
                );
            },
            (Some(v), None) => Status::Success(v.deep_copy()),
            (None, Some(e)) => match Self::error_obj_from_json(e) {
                Ok(s) => s,
                Err(err) => {
                    return Err(err);
                },
            },
        };
        Ok(Response { id, status })
    }

    /// Reads an error status out of the JSON value under an "error" key.
    fn error_obj_from_json(e: &Json) -> (r: Result<Status, Error>)
        ensures
            r is Ok <==> json_is_error_obj(e@),
            r matches Ok(s) ==> s@ == error_status_of_json(e@) && s@.wf(),
            r matches Err(err) ==> err is Decode || err is InvalidType,
    {
        let efields = match e {
            Json::Obj(fs) => fs,
            _ => {
                return Err(Error::Decode(String::from_str("\"error\" must be a JSON object")));
            },
        };
        proof {
            lemma_fields_view(efields@);
        }
        let mut allowed: Vec<String> = Vec::new();
        allowed.push(String::from_str("code"));
        allowed.push(String::from_str("message"));
        allowed.push(String::from_str("data"));
        proof {
            assert(strings_view(allowed@) =~= error_allowed_keys());
        }
        if !check_keys(efields, &allowed) {
            return Err(
                Error::Decode(
                    String::from_str("error keys must be code, message, data, each once"),
                ),
            );
        }
        let code = match Json::obj_find(efields, "code") {
            Some(v) => match v {
                Json::Int(c) => {
                    if *c < -0x8000_0000i64 || *c > 0x7fff_ffffi64 {
                        return Err(
                            Error::Decode(
                                String::from_str("\"code\" must fit a signed 32-bit integer"),
                            ),
                        );
                    }
                    *c as i32
                },
                _ => {
                    return Err(Error::Decode(String::from_str("\"code\" must be an integer")));
                },
            },
            None => {
                return Err(Error::Decode(String::from_str("\"code\" is missing")));
            },
        };
        let message = match Json::obj_find(efields, "message") {
            Some(v) => match v {
                Json::Str(m) => m.clone(),
                _ => {
                    return Err(Error::Decode(String::from_str("\"message\" must be a string")));
                },
            },
            None => {
                return Err(Error::Decode(String::from_str("\"message\" is missing")));
            },
        };
        let data = match Json::obj_find(efields, "data") {
            Some(v) => Some(v.deep_copy()),
            None => None,
        };
        Ok(Status::Error { code, message, data })
    }

    /// Parses a text and reads a response out of it.
    pub fn from_str(s: &str) -> (r: Result<Response, Error>)
        ensures
            r is Ok <==> (parse_of(s@) matches Some(j) && json_is_response(j)),
            r matches Ok(resp) ==> (parse_of(s@) matches Some(j) && resp@ == response_of_json(j)
                && resp@.wf()),
            r matches Err(e) ==> e is Decode || e is InvalidType || e is Serde,
            parse_of(s@) is None ==> (r matches Err(e) && e is Serde),
    {
        match parse_json(s) {
            Ok(j) => Response::from_json(&j),
            Err(e) => Err(e),
        }
    }

    /// Writes this response as the JSON value that encodes it.
    pub fn to_json(self) -> (r: Json)
        ensures
            r@ == response_to_jsonv(self@),
    {
        let ghost rv = self@;
        let Response { id, status } = self;
        let mut fields: Vec<(String, Json)> = Vec::new();
        fields.push((String::from_str("jsonrpc"), Json::Str(String::from_str("2.0"))));
        fields.push((String::from_str("id"), id.to_json()));
        match status {
            Status::Success(v) => {
                fields.push((String::from_str("result"), v));
            },
            Status::Error { code, message, data } => {
                let ghost msgv = message@;
                let ghost datav: Option<JsonV> = match data {
                    Some(ref d) => Some(d@),
                    None => None,
                };
                let mut efields: Vec<(String, Json)> = Vec::new();
                efields.push((String::from_str("code"), Json::Int(code as i64)));
                efields.push((String::from_str("message"), Json::Str(message)));
                match data {
                    Some(d) => {
                        efields.push((String::from_str("data"), d));
                    },
                    None => (),
                }
                proof {
                    lemma_fields_view(efields@);
                    assert(fields_view(efields@) =~= error_obj_fields(code as int, msgv, datav));
                }
                fields.push((String::from_str("error"), Json::Obj(efields)));
            },
        }
        proof {
            lemma_fields_view(fields@);
            assert(fields_view(fields@) =~= response_fields(rv));
        }
        Json::Obj(fields)
    }

    /// Renders this response to JSON text; succeeds on every wire-safe
    /// response.
    pub fn into_string(self) -> (r: Result<String, Error>)
        ensures
            r matches Ok(s) ==> s@ == text_of(response_to_jsonv(self@)),
            self@.wire_ok() ==> r is Ok,
            self@.wire_ok() ==> (r matches Ok(s) && parse_of(s@) == Some(
                response_to_jsonv(self@),
            )),
    {
        proof {
            if self@.wire_ok() {
                lemma_response_wire_safe(self@);
            }
        }
        let j = self.to_json();
        render_json(&j)
    }

    /// The version tag every response carries.
    pub fn version(&self) -> (r: String)
        ensures
            r@ == "2.0"@,
    {
        String::from_str("2.0")
    }
}

/// The encoding of a wire-ok response is a wire-safe tree.
pub proof fn lemma_response_wire_safe(r: RespV)
    requires
        r.wire_ok(),
    ensures
        wire_safe(response_to_jsonv(r)),
{
    lemma_wire_keys_distinct();
    let fs = response_fields(r);
    assert(wire_safe(JsonV::Str("2.0"@)));
    match r.status {
        StatusV::Success(v) => {
            assert(wire_safe(status_payload(r.status)));
        },
        StatusV::Error { code, message, data } => {
            let efs = error_obj_fields(code, message, data);
            assert(wire_safe(JsonV::Int(code)));
            assert(wire_safe(JsonV::Str(message)));
            assert(forall|i: int, k: int| 0 <= i < k < efs.len() ==> efs[i].0 != efs[k].0);
            assert(forall|i: int| 0 <= i < efs.len() ==> wire_safe(#[trigger] efs[i].1));
            assert(wire_safe(status_payload(r.status)));
        },
    }
    assert(forall|i: int, k: int| 0 <= i < k < fs.len() ==> fs[i].0 != fs[k].0);
    assert(forall|i: int| 0 <= i < fs.len() ==> wire_safe(#[trigger] fs[i].1));
}

/// Decoding inverts encoding: every well-formed response decodes back from
/// its own JSON encoding, field for field.  In particular the encoding
/// carries exactly one of the "result" and "error" keys.
pub proof fn lemma_response_round_trip(r: RespV)
    requires
        r.wf(),
    ensures
        json_is_response(response_to_jsonv(r)),
        response_of_json(response_to_jsonv(r)) == r,
{
    lemma_wire_keys_distinct();
    let fs = response_fields(r);
    let keys = response_allowed_keys();
    assert(keys[0] == "jsonrpc"@);
    assert(keys[1] == "id"@);
    assert(keys[2] == "result"@);
    assert(keys[3] == "error"@);
    assert(fs.len() == 3);
    lemma_obj_get_first_match(fs, "jsonrpc"@, 0);
    lemma_obj_get_first_match(fs, "id"@, 1);
    assert(keys.contains(fs[0].0));
    assert(keys.contains(fs[1].0));
    assert(keys.contains(fs[2].0));
    match r.status {
        StatusV::Success(v) => {
            lemma_obj_get_first_match(fs, "result"@, 2);
            assert(forall|j: int| 0 <= j < fs.len() ==> fs[j].0 != "error"@);
            lemma_obj_get_no_match(fs, "error"@);
        },
        StatusV::Error { code, message, data } => {
            lemma_obj_get_first_match(fs, "error"@, 2);
            assert(forall|j: int| 0 <= j < fs.len() ==> fs[j].0 != "result"@);
            lemma_obj_get_no_match(fs, "result"@);
            let ekeys = error_allowed_keys();
            assert(ekeys[0] == "code"@);
            assert(ekeys[1] == "message"@);
            assert(ekeys[2] == "data"@);
            let efs = error_obj_fields(code, message, data);
            lemma_obj_get_first_match(efs, "code"@, 0);
            lemma_obj_get_first_match(efs, "message"@, 1);
            match data {
                Some(d) => {
                    assert(efs.len() == 3);
                    lemma_obj_get_first_match(efs, "data"@, 2);
                    assert(ekeys.contains(efs[0].0));
                    assert(ekeys.contains(efs[1].0));
                    assert(ekeys.contains(efs[2].0));
                },
                None => {
                    assert(efs.len() == 2);
                    assert(forall|j: int| 0 <= j < efs.len() ==> efs[j].0 != "data"@);
                    lemma_obj_get_no_match(efs, "data"@);
                    assert(ekeys.contains(efs[0].0));
                    assert(ekeys.contains(efs[1].0));
                },
            }
            assert(json_is_error_obj(JsonV::Obj(efs)));
            assert(error_status_of_json(JsonV::Obj(efs)) == r.status);
        },
    }
    assert(id_of_json(id_to_jsonv(r.id)) == r.id);
    assert(response_of_json(response_to_jsonv(r)) == r);
}

} // verus!
