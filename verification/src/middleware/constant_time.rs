//! Response-time equalisation: every response is held back until a minimum
//! duration has passed since the request arrived, then optionally for a
//! random jitter.

use rand::RngExt;
use std::rc::Rc;
use vstd::prelude::*;

verus! {

/// Holds every response for at least `min_duration_nanos`, plus a random
/// jitter of up to `max_jitter_nanos`.
#[derive(Clone, Copy)]
pub struct ResponseEqualizer {
    pub min_duration_nanos: u128,
    pub max_jitter_nanos: u128,
}

/// What the service answered, success or error alike, and how long to hold
/// it back before handing it on.
pub struct Held<R> {
    /// The service's answer, handed on unchanged.
    pub outcome: R,
    /// The padding, in nanoseconds.
    pub wait_nanos: u128,
    /// The random jitter to wait after the padding, in nanoseconds.
    pub jitter_nanos: Option<u64>,
}

/// `ResponseEqualizer` wrapped around a service.
pub struct ResponseEqualizerMiddleware<S> {
    service: Rc<S>,
    min_duration_nanos: u128,
    max_jitter_nanos: u128,
}

/// `rand::rng().random_range(0..=bound)`: a random number between 0 and
/// `bound` inclusive. It is chance, so nothing more is claimed.
#[verifier::external_body]
fn random_up_to(bound: u64) -> (r: u64)
    ensures
        r <= bound,
{
    rand::rng().random_range(0..=bound)
}

/// The wait still owed after `elapsed`: the rest of `min_duration`, or
/// nothing once it has passed.
pub open spec fn padding_spec(elapsed: u128, min_duration: u128) -> u128 {
    if elapsed < min_duration {
        (min_duration - elapsed) as u128
    } else {
        0
    }
}

/// The largest jitter drawn: the maximum jitter in nanoseconds, cut to its
/// low 64 bits as the count is narrowed to `u64`.
pub open spec fn jitter_bound(max_jitter: u128) -> u64 {
    (max_jitter % 0x1_0000_0000_0000_0000) as u64
}

impl ResponseEqualizer {
    /// Holds responses for at least `min_duration_nanos`, without jitter.
    pub fn new(min_duration_nanos: u128) -> (r: Self)
        ensures
            r.min_duration_nanos == min_duration_nanos,
            r.max_jitter_nanos == 0,
    {
        Self { min_duration_nanos, max_jitter_nanos: 0 }
    }

    /// Holds responses for at least `min_duration_nanos`, plus a random
    /// jitter of up to `max_jitter_nanos`.
    pub fn with_jitter(min_duration_nanos: u128, max_jitter_nanos: u128) -> (r: Self)
        ensures
            r.min_duration_nanos == min_duration_nanos,
            r.max_jitter_nanos == max_jitter_nanos,
    {
        Self { min_duration_nanos, max_jitter_nanos }
    }

    /// Wraps the equaliser around `service`.
    pub fn new_transform<S>(&self, service: S) -> (r: ResponseEqualizerMiddleware<S>)
        ensures
            r.service_spec() == service,
            r.min_spec() == self.min_duration_nanos,
            r.jitter_spec() == self.max_jitter_nanos,
    {
        ResponseEqualizerMiddleware {
            service: Rc::new(service),
            min_duration_nanos: self.min_duration_nanos,
            max_jitter_nanos: self.max_jitter_nanos,
        }
    }
}

impl<S> ResponseEqualizerMiddleware<S> {
    pub closed spec fn service_spec(&self) -> S {
        *self.service
    }

    pub closed spec fn min_spec(&self) -> u128 {
        self.min_duration_nanos
    }

    pub closed spec fn jitter_spec(&self) -> u128 {
        self.max_jitter_nanos
    }

    /// The wrapped service, shared.
    pub fn inner(&self) -> (r: &Rc<S>)
        ensures
            **r == self.service_spec(),
    {
        &self.service
    }

    /// How long to wait, in nanoseconds, once the service has answered
    /// after `elapsed_nanos`.
    pub fn padding(&self, elapsed_nanos: u128) -> (r: u128)
        ensures
            r == padding_spec(elapsed_nanos, self.min_spec()),
    {
        if elapsed_nanos < self.min_duration_nanos {
            self.min_duration_nanos - elapsed_nanos
        } else {
            0
        }
    }

    /// What to do with the service's answer `outcome`, which came after
    /// `elapsed_nanos`: whatever it is, a response or an error, it is held
    /// for the padding and then the jitter.
    pub fn hold<R>(&self, outcome: R, elapsed_nanos: u128) -> (r: Held<R>)
        ensures
            r.outcome == outcome,
            r.wait_nanos == padding_spec(elapsed_nanos, self.min_spec()),
            self.jitter_spec() == 0 ==> r.jitter_nanos is None,
            self.jitter_spec() != 0 ==> (r.jitter_nanos matches Some(j) && j <= jitter_bound(
                self.jitter_spec(),
            )),
    {
        let wait_nanos = self.padding(elapsed_nanos);
        let jitter_nanos = self.jitter();
        Held { outcome, wait_nanos, jitter_nanos }
    }

    /// The random jitter to wait after the padding, in nanoseconds: none
    /// when the maximum jitter is zero, else a draw between zero and the
    /// maximum.
    pub fn jitter(&self) -> (r: Option<u64>)
        ensures
            self.jitter_spec() == 0 ==> r is None,
            self.jitter_spec() != 0 ==> (r matches Some(j) && j <= jitter_bound(self.jitter_spec())),
    {
        if self.max_jitter_nanos == 0 {
            None
        } else {
            let bound = (self.max_jitter_nanos % 0x1_0000_0000_0000_0000) as u64;
            Some(random_up_to(bound))
        }
    }
}

/// No response leaves before the minimum duration: the time the service
/// took plus the padding is at least the minimum.
pub proof fn law_response_never_early(elapsed: u128, min_duration: u128)
    ensures
        elapsed + padding_spec(elapsed, min_duration) >= min_duration,
        elapsed >= min_duration ==> padding_spec(elapsed, min_duration) == 0,
{
}

/// The jitter never exceeds the configured maximum.
pub proof fn law_jitter_within_maximum(max_jitter: u128, j: u64)
    requires
        j <= jitter_bound(max_jitter),
    ensures
        j <= max_jitter,
{
}

} // verus!
