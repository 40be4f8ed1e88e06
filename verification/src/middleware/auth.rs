//! Middleware that validates a bearer token once per request and stores
//! the claims on the request for everything downstream.

use crate::auth::{request_token_spec, request_token, AuthRejection, HeaderText};
use crate::signing::Validate;
use std::sync::Arc;
use vstd::prelude::*;

verus! {

/// Requires a valid token on every request, validated by `validator`.
#[verifier::reject_recursive_types(T)]
pub struct Auth<T> {
    pub validator: Arc<dyn Validate<T>>,
}

impl<T> Clone for Auth<T> {
    /// `Arc::clone` on the validator: another handle to the same validator.
    #[verifier::external_body]
    fn clone(&self) -> (r: Self)
        ensures
            r == *self,
    {
        Auth { validator: Arc::clone(&self.validator) }
    }
}

/// `Auth` wrapped around a service.
#[verifier::reject_recursive_types(T)]
pub struct AuthMiddleware<S, T> {
    service: Arc<S>,
    config: Auth<T>,
}

/// What the middleware does with a request.
pub enum AuthStep<T> {
    /// Claims are already on the request: pass it on untouched.
    Forward,
    /// Store these claims on the request, then pass it on.
    Insert(T),
    /// Refuse the request.
    Reject(AuthRejection),
}

impl<T: 'static> Auth<T> {
    /// Wraps the middleware around `service`, sharing the validator.
    pub fn new_transform<S>(&self, service: S) -> (r: AuthMiddleware<S, T>)
        ensures
            r.service() == service,
            r.config_spec() == *self,
    {
        AuthMiddleware { service: Arc::new(service), config: self.clone() }
    }
}

impl<S, T: 'static> AuthMiddleware<S, T> {
    /// The wrapped service.
    pub closed spec fn service(&self) -> S {
        *self.service
    }

    /// The configuration: the validator.
    pub closed spec fn config_spec(&self) -> Auth<T> {
        self.config
    }

    /// The wrapped service, shared.
    pub fn inner(&self) -> (r: &Arc<S>)
        ensures
            **r == self.service(),
    {
        &self.service
    }

    /// The middleware's answer once the validator has answered on the
    /// request's token.
    pub fn after_validation(validated: Result<T, anyhow::Error>) -> (r: AuthStep<T>)
        ensures
            match validated {
                Ok(c) => r == AuthStep::Insert(c),
                Err(_) => r == AuthStep::<T>::Reject(AuthRejection::InvalidOrExpiredToken),
            },
    {
        match validated {
            Ok(c) => AuthStep::Insert(c),
            Err(_) => AuthStep::Reject(AuthRejection::InvalidOrExpiredToken),
        }
    }

    /// The middleware's decision on a request: claims already present are
    /// kept without validating anything; otherwise the token from the
    /// `Authorization` header (every `"Bearer "` removed) or the
    /// `access_token` cookie must be present and pass the validator.
    pub fn authenticate(
        &self,
        claims_present: bool,
        authorization: &HeaderText,
        cookie: Option<&str>,
    ) -> (r: AuthStep<T>)
        ensures
            claims_present ==> r is Forward,
            !claims_present ==> match request_token_spec(*authorization, match cookie {
                Some(c) => Some(c@),
                None => None,
            }) {
                None => r == AuthStep::<T>::Reject(AuthRejection::MissingToken),
                Some(token) => middleware_validated(&*self.config_spec().validator, token, r),
            },
    {
        if claims_present {
            return AuthStep::Forward;
        }
        match request_token(authorization, cookie) {
            None => AuthStep::Reject(AuthRejection::MissingToken),
            Some(token) => {
                let verdict = self.config.validator.validate(token.as_str());
                let ghost answered = verdict;
                let r = Self::after_validation(verdict);
                proof {
                    if answered is Err {
                        assert(self.config.validator.answers(token@, Err(answered->Err_0)));
                    }
                }
                r
            },
        }
    }
}

/// The middleware's answer is the validator's verdict on `token`: the
/// claims it accepts are stored on the request, and a refused token is
/// answered `InvalidOrExpiredToken`.
pub open spec fn middleware_validated<T, V: Validate<T> + ?Sized>(v: &V, token: Seq<char>, r: AuthStep<T>) -> bool {
    match r {
        AuthStep::Insert(c) => v.answers(token, Ok(c)),
        AuthStep::Reject(e) => e == AuthRejection::InvalidOrExpiredToken && exists|err: anyhow::Error|
            #[trigger] v.answers(token, Err(err)),
        AuthStep::Forward => false,
    }
}

} // verus!
