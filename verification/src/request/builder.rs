//! A staged builder for the Request object.
//!
//! Each required field owns a marker type with two states: still unset
//! (`MethodNone`, `IdNone`) or set (`Method`, `Id`).  A setter for a required
//! field exists only in the unset state, and `build` exists only once every
//! required field is set, so an incomplete request cannot be built and a
//! required field cannot be set twice.

use crate::error::Error;
use crate::id::Id as JId;
use crate::params::{params_shape_ok, Params};
use crate::request::Request;
use crate::wire::parse_of;
use vstd::prelude::*;

verus! {

/// The method field has not been set yet.
pub struct MethodNone;

/// The method field has been set to the stored name.
pub struct Method(pub String);

/// The id field has not been set yet.
pub struct IdNone;

/// The id field has been set to the stored id.
pub struct Id(pub JId);

/// The staged builder for a [`Request`].
pub struct Builder<M, I> {
    pub method: M,
    pub params: Option<Params>,
    pub id: I,
}

impl Builder<MethodNone, IdNone> {
    /// A builder with no field set.
    pub fn new() -> (r: Self)
        ensures
            r.params is None,
    {
        Builder { method: MethodNone, params: None, id: IdNone }
    }
}

impl<M, I> Builder<M, I> {
    /// Supplies the optional params; the value must already be structured.
    pub fn params(self, p: Params) -> (r: Builder<M, I>)
        requires
            p.wf(),
        ensures
            r.method == self.method,
            r.id == self.id,
            r.params == Some(p),
    {
        Builder { method: self.method, params: Some(p), id: self.id }
    }

    /// Supplies the optional params from a JSON text, which must parse to an
    /// object or an array.
    pub fn params_str(self, p: &str) -> (r: Result<Builder<M, I>, Error>)
        ensures
            r is Ok <==> (parse_of(p@) matches Some(pj) && params_shape_ok(pj)),
            r matches Ok(b) ==> b.method == self.method && b.id == self.id && (parse_of(p@)
                matches Some(pj) && b.params matches Some(q) && q@ == pj && q.wf()),
    {
        match Params::from_text(p) {
            Ok(q) => Ok(Builder { method: self.method, params: Some(q), id: self.id }),
            Err(e) => Err(e),
        }
    }
}

impl<I> Builder<MethodNone, I> {
    /// Sets the required method name, which must be non-empty.
    pub fn method(self, m: &str) -> (r: Builder<Method, I>)
        requires
            m@.len() > 0,
        ensures
            r.method.0@ == m@,
            r.params == self.params,
            r.id == self.id,
    {
        Builder { method: Method(String::from_str(m)), params: self.params, id: self.id }
    }
}

impl<M> Builder<M, IdNone> {
    /// Sets the required id.
    pub fn id(self, i: JId) -> (r: Builder<M, Id>)
        ensures
            r.method == self.method,
            r.params == self.params,
            r.id.0 == i,
    {
        Builder { method: self.method, params: self.params, id: Id(i) }
    }
}

impl Builder<Method, Id> {
    /// Assembles the request; only reachable once the method and the id have
    /// been set.
    pub fn build(self) -> (r: Request)
        ensures
            r.method == self.method.0,
            r.params == self.params,
            r.id == self.id.0,
            (self.method.0@.len() > 0 && (self.params matches Some(p) ==> p.wf()))
                ==> r@.wf(),
    {
        Request { method: self.method.0, params: self.params, id: self.id.0 }
    }
}

} // verus!
