//! A staged builder for the Notification object.
//!
//! The method is the only required field; it owns a marker type with two
//! states, still unset (`MethodNone`) or set (`Method`).  `build` exists only
//! once the method is set, so an incomplete notification cannot be built and
//! the method cannot be set twice.

use crate::error::Error;
use crate::notification::Notification;
use crate::params::{params_shape_ok, Params};
use crate::wire::parse_of;
use vstd::prelude::*;

verus! {

/// The method field has not been set yet.
pub struct MethodNone;

/// The method field has been set to the stored name.
pub struct Method(pub String);

/// The staged builder for a [`Notification`].
pub struct Builder<M> {
    pub method: M,
    pub params: Option<Params>,
}

impl Default for Builder<MethodNone> {
    fn default() -> (r: Self)
        ensures
            r.params is None,
    {
        Self::new()
    }
}

impl Builder<MethodNone> {
    /// A builder with no field set.
    pub fn new() -> (r: Self)
        ensures
            r.params is None,
    {
        Builder { method: MethodNone, params: None }
    }

    /// Sets the required method name, which must be non-empty.
    pub fn method(self, m: &str) -> (r: Builder<Method>)
        requires
            m@.len() > 0,
        ensures
            r.method.0@ == m@,
            r.params == self.params,
    {
        Builder { method: Method(String::from_str(m)), params: self.params }
    }
}

impl<M> Builder<M> {
    /// Supplies the optional params; the value must already be structured.
    pub fn params(self, p: Params) -> (r: Builder<M>)
        requires
            p.wf(),
        ensures
            r.method == self.method,
            r.params == Some(p),
    {
        Builder { method: self.method, params: Some(p) }
    }

    /// Supplies the optional params from a JSON text, which must parse to an
    /// object or an array.
    pub fn params_str(self, p: &str) -> (r: Result<Builder<M>, Error>)
        ensures
            r is Ok <==> (parse_of(p@) matches Some(pj) && params_shape_ok(pj)),
            r matches Ok(b) ==> b.method == self.method && (parse_of(p@) matches Some(pj)
                && b.params matches Some(q) && q@ == pj && q.wf()),
    {
        match Params::from_text(p) {
            Ok(q) => Ok(Builder { method: self.method, params: Some(q) }),
            Err(e) => Err(e),
        }
    }
}

impl Builder<Method> {
    /// Assembles the notification; only reachable once the method has been
    /// set.
    pub fn build(self) -> (r: Notification)
        ensures
            r.method == self.method.0,
            r.params == self.params,
            (self.method.0@.len() > 0 && (self.params matches Some(p) ==> p.wf()))
                ==> r@.wf(),
    {
        Notification { method: self.method.0, params: self.params }
    }
}

} // verus!
