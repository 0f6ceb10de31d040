//! A staged builder for the Response object.
//!
//! Each required field owns a marker type with two states, still unset
//! (`IdNone`, `CodeNone`, `MessageNone`) or set (`Id`, `Code`, `Message`).
//! The id can be set before or after choosing the success or error branch.
//! The error branch adds two more required fields, the code and the message,
//! set either one by one or atomically through the spec-reserved presets.
//! A terminal `build` exists only once every required field of the chosen
//! branch is set, so an incomplete response cannot be built and a required
//! field cannot be set twice.

use crate::id::Id as JId;
use crate::json::Json;
use crate::response::{Response, Status};
use vstd::prelude::*;

verus! {

/// The id field has not been set yet.
pub struct IdNone;

/// The id field has been set to the stored id.
pub struct Id(pub JId);

/// The error code has not been set yet.
pub struct CodeNone;

/// The error code has been set to the stored code.
pub struct Code(pub i32);

/// The error message has not been set yet.
pub struct MessageNone;

/// The error message has been set to the stored text.
pub struct Message(pub String);

/// The staged builder for a [`Response`]; it branches into a
/// [`SuccessBuilder`] or an [`ErrorBuilder`].
pub struct Builder<I> {
    pub id: I,
}

impl Default for Builder<IdNone> {
    fn default() -> (r: Self) {
        Self::new()
    }
}

impl Builder<IdNone> {
    /// A builder with no field set.
    pub fn new() -> (r: Self) {
        Builder { id: IdNone }
    }

    /// Sets the required id.
    pub fn id(self, i: JId) -> (r: Builder<Id>)
        ensures
            r.id.0 == i,
    {
        Builder { id: Id(i) }
    }
}

impl<I> Builder<I> {
    /// Branches into a success response; the result value itself stays
    /// optional.
    pub fn success(self) -> (r: SuccessBuilder<I>)
        ensures
            r.id == self.id,
            r.result is None,
    {
        SuccessBuilder { id: self.id, result: None }
    }

    /// Branches into an error response, which additionally requires a code
    /// and a message before it can be built.
    pub fn error(self) -> (r: ErrorBuilder<I, CodeNone, MessageNone>)
        ensures
            r.id == self.id,
            r.data is None,
    {
        ErrorBuilder { id: self.id, code: CodeNone, message: MessageNone, data: None }
    }
}

/// The staged builder for a success response.
pub struct SuccessBuilder<I> {
    pub id: I,
    pub result: Option<Json>,
}

impl SuccessBuilder<IdNone> {
    /// Sets the required id.
    pub fn id(self, i: JId) -> (r: SuccessBuilder<Id>)
        ensures
            r.id.0 == i,
            r.result == self.result,
    {
        SuccessBuilder { id: Id(i), result: self.result }
    }
}

impl<I> SuccessBuilder<I> {
    /// Supplies the optional result value.
    pub fn result(self, p: Json) -> (r: SuccessBuilder<I>)
        ensures
            r.id == self.id,
            r.result == Some(p),
    {
        SuccessBuilder { id: self.id, result: Some(p) }
    }

    /// Supplies the optional result as a JSON string value holding `p`.
    pub fn result_str(self, p: &str) -> (r: SuccessBuilder<I>)
        ensures
            r.id == self.id,
            r.result matches Some(v) && v@ == crate::json::JsonV::Str(p@),
    {
        SuccessBuilder { id: self.id, result: Some(Json::Str(String::from_str(p))) }
    }
}

impl SuccessBuilder<Id> {
    /// Assembles the success response; only reachable once the id has been
    /// set.  An absent result serializes as JSON null.
    pub fn build(self) -> (r: Response)
        ensures
            r.id == self.id.0,
            r.status matches Status::Success(v) && (match self.result {
                Some(p) => v == p,
                None => v == Json::Null,
            }),
            r@.wf(),
    {
        let result = match self.result {
            Some(p) => p,
            None => Json::Null,
        };
        Response { id: self.id.0, status: Status::Success(result) }
    }
}

/// The staged builder for an error response.
pub struct ErrorBuilder<I, C, M> {
    pub id: I,
    pub code: C,
    pub message: M,
    pub data: Option<Json>,
}

impl<C, M> ErrorBuilder<IdNone, C, M> {
    /// Sets the required id.
    pub fn id(self, i: JId) -> (r: ErrorBuilder<Id, C, M>)
        ensures
            r.id.0 == i,
            r.code == self.code,
            r.message == self.message,
            r.data == self.data,
    {
        ErrorBuilder { id: Id(i), code: self.code, message: self.message, data: self.data }
    }
}

impl<I, M> ErrorBuilder<I, CodeNone, M> {
    /// Sets the required error code.
    pub fn code(self, c: i32) -> (r: ErrorBuilder<I, Code, M>)
        ensures
            r.id == self.id,
            r.code.0 == c,
            r.message == self.message,
            r.data == self.data,
    {
        ErrorBuilder { id: self.id, code: Code(c), message: self.message, data: self.data }
    }
}

impl<I, C> ErrorBuilder<I, C, MessageNone> {
    /// Sets the required error message.
    pub fn message(self, m: &str) -> (r: ErrorBuilder<I, C, Message>)
        ensures
            r.id == self.id,
            r.code == self.code,
            r.message.0@ == m@,
            r.data == self.data,
    {
        ErrorBuilder {
            id: self.id,
            code: self.code,
            message: Message(String::from_str(m)),
            data: self.data,
        }
    }
}

impl<I> ErrorBuilder<I, CodeNone, MessageNone> {
    /// Sets the code and the message atomically to the spec-reserved pair
    /// for an unparsable text.
    pub fn parse_error(self) -> (r: ErrorBuilder<I, Code, Message>)
        ensures
            r.id == self.id,
            r.code.0 == -32700,
            r.message.0@ == "Parse error"@,
            r.data == self.data,
    {
        ErrorBuilder {
            id: self.id,
            code: Code(-32700),
            message: Message(String::from_str("Parse error")),
            data: self.data,
        }
    }

    /// Sets the code and the message atomically to the spec-reserved pair
    /// for a JSON text that is no valid request object.
    pub fn invalid_request(self) -> (r: ErrorBuilder<I, Code, Message>)
        ensures
            r.id == self.id,
            r.code.0 == -32600,
            r.message.0@ == "Invalid Request"@,
            r.data == self.data,
    {
        ErrorBuilder {
            id: self.id,
            code: Code(-32600),
            message: Message(String::from_str("Invalid Request")),
            data: self.data,
        }
    }

    /// Sets the code and the message atomically to the spec-reserved pair
    /// for a method the receiver does not offer.
    pub fn method_not_found(self) -> (r: ErrorBuilder<I, Code, Message>)
        ensures
            r.id == self.id,
            r.code.0 == -32601,
            r.message.0@ == "Method not found"@,
            r.data == self.data,
    {
        ErrorBuilder {
            id: self.id,
            code: Code(-32601),
            message: Message(String::from_str("Method not found")),
            data: self.data,
        }
    }

    /// Sets the code and the message atomically to the spec-reserved pair
    /// for invalid method parameters.
    pub fn invalid_params(self) -> (r: ErrorBuilder<I, Code, Message>)
        ensures
            r.id == self.id,
            r.code.0 == -32602,
            r.message.0@ == "Invalid params"@,
            r.data == self.data,
    {
        ErrorBuilder {
            id: self.id,
            code: Code(-32602),
            message: Message(String::from_str("Invalid params")),
            data: self.data,
        }
    }

    /// Sets the code and the message atomically to the spec-reserved pair
    /// for an internal error of the receiver.
    pub fn internal_error(self) -> (r: ErrorBuilder<I, Code, Message>)
        ensures
            r.id == self.id,
            r.code.0 == -32603,
            r.message.0@ == "Internal error"@,
            r.data == self.data,
    {
        ErrorBuilder {
            id: self.id,
            code: Code(-32603),
            message: Message(String::from_str("Internal error")),
            data: self.data,
        }
    }

    /// Sets an application-supplied code from the spec-reserved server-error
    /// band and fixes the message to "Server error".
    pub fn server_error(self, code: ServerErrorCode) -> (r: ErrorBuilder<I, Code, Message>)
        ensures
            r.id == self.id,
            r.code.0 == code.0,
            r.message.0@ == "Server error"@,
            r.data == self.data,
    {
        ErrorBuilder {
            id: self.id,
            code: Code(code.0),
            message: Message(String::from_str("Server error")),
            data: self.data,
        }
    }
}

impl<I, C, M> ErrorBuilder<I, C, M> {
    /// Supplies the optional data value.
    pub fn data(self, p: Json) -> (r: ErrorBuilder<I, C, M>)
        ensures
            r.id == self.id,
            r.code == self.code,
            r.message == self.message,
            r.data == Some(p),
    {
        ErrorBuilder { id: self.id, code: self.code, message: self.message, data: Some(p) }
    }

    /// Supplies the optional data as a JSON string value holding `p`.
    pub fn data_str(self, p: &str) -> (r: ErrorBuilder<I, C, M>)
        ensures
            r.id == self.id,
            r.code == self.code,
            r.message == self.message,
            r.data matches Some(v) && v@ == crate::json::JsonV::Str(p@),
    {
        ErrorBuilder {
            id: self.id,
            code: self.code,
            message: self.message,
            data: Some(Json::Str(String::from_str(p))),
        }
    }
}

impl ErrorBuilder<Id, Code, Message> {
    /// Assembles the error response; only reachable once the id, the code
    /// and the message have all been set.
    pub fn build(self) -> (r: Response)
        ensures
            r.id == self.id.0,
            r.status matches Status::Error { code, message, data } && code == self.code.0
                && message == self.message.0 && data == self.data,
            r@.wf(),
    {
        Response {
            id: self.id.0,
            status: Status::Error { code: self.code.0, message: self.message.0, data: self.data },
        }
    }
}

/// An error code constrained to the spec-reserved server-error band, the
/// closed interval from -32099 to -32000.
pub struct ServerErrorCode(pub i32);

impl ServerErrorCode {
    /// Wraps a code from the server-error band; a code outside the band is
    /// a caller bug, never wire-valid, and is ruled out up front.
    pub fn new(val: i32) -> (r: Self)
        requires
            -32099 <= val <= -32000,
        ensures
            r.0 == val,
    {
        ServerErrorCode(val)
    }

    /// Checks a code against the server-error band: the band's codes are
    /// accepted, every other code is refused.
    pub fn try_new(val: i32) -> (r: Option<Self>)
        ensures
            r is Some <==> -32099 <= val <= -32000,
            r matches Some(c) ==> c.0 == val,
    {
        if -32099 <= val && val <= -32000 {
            Some(ServerErrorCode(val))
        } else {
            None
        }
    }

    /// The wrapped code.
    pub fn get(&self) -> (r: i32)
        ensures
            r == self.0,
    {
        self.0
    }
}

} // verus!
