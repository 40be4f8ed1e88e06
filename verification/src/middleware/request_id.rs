//! A random identifier for every request, recorded on the request and
//! returned in the `X-Request-Id` response header.

use crate::ids::{hyphenated, is_v4, random_uuid_v4, uuid_text};
use std::rc::Rc;
use vstd::prelude::*;

verus! {

/// Gives every request an identifier.
pub struct RequestId;

/// `RequestId` wrapped around a service.
pub struct RequestIdMiddleware<S> {
    service: Rc<S>,
}

/// A request's identifier: the hyphenated text of a random UUID.
#[derive(Clone)]
pub struct RequestIdStr(pub String);

impl RequestId {
    /// Wraps the middleware around `service`.
    pub fn new_transform<S>(&self, service: S) -> (r: RequestIdMiddleware<S>)
        ensures
            r.service_spec() == service,
    {
        RequestIdMiddleware { service: Rc::new(service) }
    }

    /// The name of the response header.
    pub fn header_name() -> (r: &'static str)
        ensures
            r@ == seq!['X', '-', 'R', 'e', 'q', 'u', 'e', 's', 't', '-', 'I', 'd'],
    {
        proof {
            reveal_strlit("X-Request-Id");
        }
        "X-Request-Id"
    }
}

impl<S> RequestIdMiddleware<S> {
    pub closed spec fn service_spec(&self) -> S {
        *self.service
    }

    /// The wrapped service, shared.
    pub fn inner(&self) -> (r: &Rc<S>)
        ensures
            **r == self.service_spec(),
    {
        &self.service
    }
}

impl RequestIdStr {
    /// A fresh identifier: the hyphenated lower-case text of a random
    /// version-4 UUID.
    pub fn generate() -> (r: RequestIdStr)
        ensures
            exists|v: u128| is_v4(v) && r.0@ == hyphenated(v),
    {
        let v = random_uuid_v4();
        RequestIdStr(uuid_text(v))
    }
}

} // verus!
