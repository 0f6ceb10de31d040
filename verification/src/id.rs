//! The "id" correlation value of JSON-RPC message objects.

use crate::error::Error;
use crate::json::{Json, JsonV};
use crate::wire::parse_of;
use crate::wire::parse_json;
use vstd::prelude::*;

verus! {

/// The "id" field of a JSON-RPC object.
///
/// An id can only be a string, an integer, a fractional number (kept as its
/// canonical decimal text, see [`crate::json::Json::Frac`]) or null.  An
/// integer id and a fractional id are never interchangeable, even when they
/// are numerically equal.
#[derive(Debug)]
pub enum Id {
    Text(String),
    Number(i64),
    Fractional(String),
    Null,
}

/// The mathematical value of an [`Id`].
pub enum IdV {
    Text(Seq<char>),
    Number(int),
    Fractional(Seq<char>),
    Null,
}

impl View for Id {
    type V = IdV;

    open spec fn view(&self) -> IdV {
        match self {
            Id::Text(s) => IdV::Text(s@),
            Id::Number(n) => IdV::Number(*n as int),
            Id::Fractional(t) => IdV::Fractional(t@),
            Id::Null => IdV::Null,
        }
    }
}

/// Whether a JSON value is a legal id: a string, a number or null.
pub open spec fn id_json_ok(j: JsonV) -> bool {
    ||| j is Str
    ||| j is Int
    ||| j is Frac
    ||| j is Null
}

/// The id stored in a legal id JSON value.
pub open spec fn id_of_json(j: JsonV) -> IdV
    recommends
        id_json_ok(j),
{
    match j {
        JsonV::Str(s) => IdV::Text(s),
        JsonV::Int(i) => IdV::Number(i),
        JsonV::Frac(t) => IdV::Fractional(t),
        _ => IdV::Null,
    }
}

/// The JSON value that encodes an id.
pub open spec fn id_to_jsonv(id: IdV) -> JsonV {
    match id {
        IdV::Text(s) => JsonV::Str(s),
        IdV::Number(n) => JsonV::Int(n),
        IdV::Fractional(t) => JsonV::Frac(t),
        IdV::Null => JsonV::Null,
    }
}

impl Id {
    /// An id holding the given string.
    pub fn from_text(v: &str) -> (r: Id)
        ensures
            r@ == IdV::Text(v@),
    {
        Id::Text(String::from_str(v))
    }

    /// An id holding the given integer.
    pub fn from_number(v: i64) -> (r: Id)
        ensures
            r@ == IdV::Number(v as int),
    {
        Id::Number(v)
    }

    /// An id holding the number written in `text`, which must be a JSON
    /// number outside the signed 64-bit integer form (one with a fractional
    /// part, an exponent, or too large); the stored text is the parser's
    /// canonical form of it.
    pub fn from_fractional(text: &str) -> (r: Result<Id, Error>)
        ensures
            r is Ok <==> (parse_of(text@) matches Some(j) && j is Frac),
            r matches Ok(id) ==> (parse_of(text@) matches Some(j) && id@ == id_of_json(j)
                && j is Frac),
    {
        match parse_json(text) {
            Ok(j) => match j {
                Json::Frac(t) => Ok(Id::Fractional(t)),
                _ => Err(
                    Error::InvalidType(
                        String::from_str("a fractional id must be written as a fractional number"),
                    ),
                ),
            },
            Err(e) => Err(e),
        }
    }

    /// The null id.
    pub fn null() -> (r: Id)
        ensures
            r@ == IdV::Null,
    {
        Id::Null
    }

    /// An identical copy of this id.
    pub fn duplicate(&self) -> (r: Id)
        ensures
            r@ == self@,
    {
        match self {
            Id::Text(s) => Id::Text(s.clone()),
            Id::Number(n) => Id::Number(*n),
            Id::Fractional(t) => Id::Fractional(t.clone()),
            Id::Null => Id::Null,
        }
    }

    /// The stored string; fails on any other variant.
    pub fn into_text(self) -> (r: Result<String, Error>)
        ensures
            r is Ok <==> self is Text,
            r matches Ok(v) ==> self matches Id::Text(s) && v == s,
            r matches Err(e) ==> e is InvalidType,
            self is Number ==> (r matches Err(Error::InvalidType(m)) && m@
                == "cannot convert Id type Number to String"@),
            self is Fractional ==> (r matches Err(Error::InvalidType(m)) && m@
                == "cannot convert Id type Fractional to String"@),
            self is Null ==> (r matches Err(Error::InvalidType(m)) && m@
                == "cannot convert Id type Null to String"@),
    {
        match self {
            Id::Text(v) => Ok(v),
            Id::Number(_) => Err(
                Error::InvalidType(String::from_str("cannot convert Id type Number to String")),
            ),
            Id::Fractional(_) => Err(
                Error::InvalidType(String::from_str("cannot convert Id type Fractional to String")),
            ),
            Id::Null => Err(
                Error::InvalidType(String::from_str("cannot convert Id type Null to String")),
            ),
        }
    }

    /// The stored integer; fails on any other variant.
    pub fn into_number(self) -> (r: Result<i64, Error>)
        ensures
            r is Ok <==> self is Number,
            r matches Ok(v) ==> self@ == IdV::Number(v as int),
            r matches Err(e) ==> e is InvalidType,
            self is Text ==> (r matches Err(Error::InvalidType(m)) && m@
                == "cannot convert Id type String to Number"@),
            self is Fractional ==> (r matches Err(Error::InvalidType(m)) && m@
                == "cannot convert Id type Fractional to Number"@),
            self is Null ==> (r matches Err(Error::InvalidType(m)) && m@
                == "cannot convert Id type Null to Number"@),
    {
        match self {
            Id::Text(_) => Err(
                Error::InvalidType(String::from_str("cannot convert Id type String to Number")),
            ),
            Id::Number(v) => Ok(v),
            Id::Fractional(_) => Err(
                Error::InvalidType(String::from_str("cannot convert Id type Fractional to Number")),
            ),
            Id::Null => Err(
                Error::InvalidType(String::from_str("cannot convert Id type Null to Number")),
            ),
        }
    }

    /// The stored fractional-number text; fails on any other variant.
    pub fn into_fractional(self) -> (r: Result<String, Error>)
        ensures
            r is Ok <==> self is Fractional,
            r matches Ok(v) ==> self matches Id::Fractional(t) && v == t,
            r matches Err(e) ==> e is InvalidType,
            self is Text ==> (r matches Err(Error::InvalidType(m)) && m@
                == "cannot convert Id type String to Fractional"@),
            self is Number ==> (r matches Err(Error::InvalidType(m)) && m@
                == "cannot convert Id type Number to Fractional"@),
            self is Null ==> (r matches Err(Error::InvalidType(m)) && m@
                == "cannot convert Id type Null to Fractional"@),
    {
        match self {
            Id::Text(_) => Err(
                Error::InvalidType(String::from_str("cannot convert Id type String to Fractional")),
            ),
            Id::Number(_) => Err(
                Error::InvalidType(String::from_str("cannot convert Id type Number to Fractional")),
            ),
            Id::Fractional(v) => Ok(v),
            Id::Null => Err(
                Error::InvalidType(String::from_str("cannot convert Id type Null to Fractional")),
            ),
        }
    }

    /// Succeeds exactly on the null id.
    pub fn into_null(self) -> (r: Result<(), Error>)
        ensures
            r is Ok <==> self is Null,
            r matches Err(e) ==> e is InvalidType,
            self is Text ==> (r matches Err(Error::InvalidType(m)) && m@
                == "cannot convert Id type String to ()"@),
            self is Number ==> (r matches Err(Error::InvalidType(m)) && m@
                == "cannot convert Id type Number to ()"@),
            self is Fractional ==> (r matches Err(Error::InvalidType(m)) && m@
                == "cannot convert Id type Fractional to ()"@),
    {
        match self {
            Id::Text(_) => Err(
                Error::InvalidType(String::from_str("cannot convert Id type String to ()")),
            ),
            Id::Number(_) => Err(
                Error::InvalidType(String::from_str("cannot convert Id type Number to ()")),
            ),
            Id::Fractional(_) => Err(
                Error::InvalidType(String::from_str("cannot convert Id type Fractional to ()")),
            ),
            Id::Null => Ok(()),
        }
    }

    /// Reads an id out of a JSON value: a string, a number or null.
    pub fn from_json(j: &Json) -> (r: Result<Id, Error>)
        ensures
            r is Ok <==> id_json_ok(j@),
            r matches Ok(id) ==> id@ == id_of_json(j@),
            r matches Err(e) ==> (e matches Error::Decode(m) && m@
                == "\"id\" must be a string, a number or null"@),
    {
        match j {
            Json::Str(s) => Ok(Id::Text(s.clone())),
            Json::Int(i) => Ok(Id::Number(*i)),
            Json::Frac(t) => Ok(Id::Fractional(t.clone())),
            Json::Null => Ok(Id::Null),
            _ => Err(
                Error::Decode(String::from_str("\"id\" must be a string, a number or null")),
            ),
        }
    }

    /// Writes this id as the JSON value that encodes it.
    pub fn to_json(self) -> (r: Json)
        ensures
            r@ == id_to_jsonv(self@),
    {
        match self {
            Id::Text(s) => Json::Str(s),
            Id::Number(n) => Json::Int(n),
            Id::Fractional(t) => Json::Frac(t),
            Id::Null => Json::Null,
        }
    }
}

/// Decoding inverts encoding on every id, and encoding inverts decoding on
/// every legal id JSON value.
pub proof fn lemma_id_round_trip(id: IdV, j: JsonV)
    requires
        id_json_ok(j),
    ensures
        id_json_ok(id_to_jsonv(id)),
        id_of_json(id_to_jsonv(id)) == id,
        id_to_jsonv(id_of_json(j)) == j,
{
}

} // verus!
