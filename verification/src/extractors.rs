//! Values that handlers take from a request: the resolved client address
//! and the query-string filters.

use crate::middleware::rate_limiter::GetId;
use crate::net::IpAddress;
use std::collections::HashMap;
use vstd::prelude::*;

verus! {

/// The client address that the client-IP middleware resolved.
#[derive(Debug, Clone, Copy)]
pub struct ClientIp(pub IpAddress);

impl ClientIp {
    /// The address.
    pub fn ip(&self) -> (r: IpAddress)
        ensures
            r == self.0,
    {
        self.0
    }

    /// The extractor: the address the middleware stored on the request, or
    /// `ClientIpMissing` (a 500) when the middleware did not run.
    pub fn from_extensions(stored: Option<ClientIp>) -> (r: Result<ClientIp, ClientIpMissing>)
        ensures
            match stored {
                Some(c) => r == Ok::<ClientIp, ClientIpMissing>(c),
                None => r is Err,
            },
    {
        match stored {
            Some(c) => Ok(c),
            None => Err(ClientIpMissing),
        }
    }
}

/// The client-IP middleware did not run for this request.
#[derive(Debug)]
pub struct ClientIpMissing;

impl ClientIpMissing {
    /// The HTTP status of the response.
    pub fn status(&self) -> (r: u16)
        ensures
            r == 500,
    {
        500
    }

    /// The text of the response.
    pub fn message(&self) -> (r: &'static str)
        ensures
            r@ == "client IP middleware is not configured"@,
    {
        "client IP middleware is not configured"
    }
}

impl GetId for ClientIp {
    type Id = IpAddress;

    fn id(&self) -> (r: IpAddress)
        ensures
            r == self.0,
    {
        self.0
    }
}

/// Query-string parameters as a map from name to value.
#[derive(Debug, Clone, Default)]
pub struct Filters(pub HashMap<String, String>);

impl core::ops::Deref for Filters {
    type Target = HashMap<String, String>;

    fn deref(&self) -> (r: &HashMap<String, String>)
        ensures
            *r == self.0,
    {
        &self.0
    }
}

impl From<HashMap<String, String>> for Filters {
    fn from(value: HashMap<String, String>) -> (r: Filters) {
        Filters(value)
    }
}

impl vstd::std_specs::convert::FromSpecImpl<HashMap<String, String>> for Filters {
    open spec fn obeys_from_spec() -> bool {
        true
    }

    open spec fn from_spec(v: HashMap<String, String>) -> Filters {
        Filters(v)
    }
}

} // verus!
