//! A deadline for each request: a request that has not been answered in
//! time is answered 504 Gateway Timeout.

use vstd::prelude::*;

verus! {

/// Fails requests that take longer than `timeout_nanos`.
#[derive(Clone, Copy)]
pub struct TimeoutMiddleware {
    pub timeout_nanos: u128,
}

/// `TimeoutMiddleware` wrapped around a service.
pub struct TimeoutMiddlewareService<S> {
    pub service: S,
    pub timeout_nanos: u128,
}

/// The request ran out of time.
#[derive(Debug, Clone, Copy, PartialEq, Eq, Structural)]
pub struct TimedOut;

impl TimedOut {
    /// The HTTP status of the response.
    pub fn status(&self) -> (r: u16)
        ensures
            r == 504,
    {
        504
    }

    /// The text of the response.
    pub fn message(&self) -> (r: &'static str)
        ensures
            r@ == "Request timed out"@,
    {
        "Request timed out"
    }
}

impl TimeoutMiddleware {
    /// Fails requests that take longer than `timeout_nanos`.
    pub fn new(timeout_nanos: u128) -> (r: Self)
        ensures
            r.timeout_nanos == timeout_nanos,
    {
        Self { timeout_nanos }
    }

    /// Wraps the deadline around `service`.
    pub fn new_transform<S>(&self, service: S) -> (r: TimeoutMiddlewareService<S>)
        ensures
            r.service == service,
            r.timeout_nanos == self.timeout_nanos,
    {
        TimeoutMiddlewareService { service, timeout_nanos: self.timeout_nanos }
    }
}

impl<S> TimeoutMiddlewareService<S> {
    /// The answer to a request: the service's answer when it came before
    /// the deadline (`Some`), else `TimedOut`.
    pub fn settle<R>(finished: Option<R>) -> (r: Result<R, TimedOut>)
        ensures
            match finished {
                Some(x) => r == Ok::<R, TimedOut>(x),
                None => r == Err::<R, TimedOut>(TimedOut),
            },
    {
        match finished {
            Some(x) => Ok(x),
            None => Err(TimedOut),
        }
    }
}

} // verus!
