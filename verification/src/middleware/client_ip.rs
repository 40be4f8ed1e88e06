//! Resolution of the real client address behind trusted proxies.

use crate::extractors::ClientIp;
use crate::net::{client_ip_spec, resolve_client_ip, IpAddress, ProxyConfig};
use std::rc::Rc;
use vstd::prelude::*;

verus! {

/// Records the client address of every request, trusting `X-Forwarded-For`
/// only from the proxies of its configuration.
pub struct ClientIpMiddleware {
    config: Rc<ProxyConfig>,
}

/// `ClientIpMiddleware` wrapped around a service.
pub struct ClientIpMiddlewareService<S> {
    service: Rc<S>,
    config: Rc<ProxyConfig>,
}

impl ClientIpMiddleware {
    pub closed spec fn config_spec(&self) -> ProxyConfig {
        *self.config
    }

    /// The middleware for `config`.
    pub fn new(config: ProxyConfig) -> (r: Self)
        ensures
            r.config_spec() == config,
    {
        Self { config: Rc::new(config) }
    }

    /// Wraps the middleware around `service`.
    pub fn new_transform<S>(&self, service: S) -> (r: ClientIpMiddlewareService<S>)
        ensures
            r.config_spec() == self.config_spec(),
            r.service_spec() == service,
    {
        ClientIpMiddlewareService { service: Rc::new(service), config: self.config.clone() }
    }
}

impl<S> ClientIpMiddlewareService<S> {
    pub closed spec fn config_spec(&self) -> ProxyConfig {
        *self.config
    }

    pub closed spec fn service_spec(&self) -> S {
        *self.service
    }

    /// The wrapped service, shared.
    pub fn inner(&self) -> (r: &Rc<S>)
        ensures
            **r == self.service_spec(),
    {
        &self.service
    }

    /// The address to record for a request from `peer` whose
    /// `X-Forwarded-For` header read as `forwarded` (the addresses that
    /// parse, in order), or nothing when the connection has no peer address.
    pub fn client_ip(&self, peer: Option<IpAddress>, forwarded: Option<&Vec<IpAddress>>) -> (r:
        Option<ClientIp>)
        ensures
            match r {
                Some(c) => client_ip_spec(self.config_spec(), peer, match forwarded {
                    Some(v) => Some(v@),
                    None => None,
                }) == Some(c.0),
                None => client_ip_spec(self.config_spec(), peer, match forwarded {
                    Some(v) => Some(v@),
                    None => None,
                }) is None,
            },
    {
        match resolve_client_ip(&self.config, peer, forwarded) {
            Some(ip) => Some(ClientIp(ip)),
            None => None,
        }
    }
}

} // verus!
