//! The configuration and the per-request decisions of each middleware.
//! Each middleware here holds its settings (and, once wrapped around a
//! service, that service); the decisions it takes on a request are
//! functions of what the request and the backing stores answered.

pub mod auth;
pub mod cache;
pub mod idempotency;
pub mod rate_limiter;
pub mod client_ip;
pub mod constant_time;
pub mod pagination;
pub mod request_id;
pub mod timeout;
pub mod session;
pub mod guards;

use std::sync::Arc;
use vstd::prelude::*;

verus! {

/// `Arc::clone`: another handle to the same shared value.
#[verifier::external_body]
pub(crate) fn share<V>(a: &Arc<V>) -> (r: Arc<V>)
    ensures
        r == *a,
{
    Arc::clone(a)
}

} // verus!
