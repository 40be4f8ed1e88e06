//! Bearer-token authentication: where a request's token comes from, and how
//! the extractor, the middleware and the route guards decide on a request.

use crate::signing::Validate;
use crate::text::{has_prefix, remove_all, remove_all_occurrences, strip_prefix};
use vstd::prelude::*;

verus! {

/// The `Authorization` header of a request as the logic sees it.
pub enum HeaderText {
    /// The request has no such header.
    Absent,
    /// The header is present but is not visible ASCII text.
    Unreadable,
    /// The header's text.
    Text(String),
}

/// The scheme prefix of a bearer credential: `"Bearer "`.
pub open spec fn bearer_prefix() -> Seq<char> {
    seq!['B', 'e', 'a', 'r', 'e', 'r', ' ']
}

/// Why a request is refused authentication.
#[derive(Debug, Clone, Copy, PartialEq, Eq, Structural)]
pub enum AuthRejection {
    /// No validator was registered with the application (500).
    MissingValidator,
    /// The extractor found no `Authorization` header (401).
    MissingHeader,
    /// The `Authorization` header is not text (401).
    InvalidHeaderFormat,
    /// The `Authorization` header does not use the bearer scheme (401).
    InvalidScheme,
    /// The validator refused the token taken by the extractor (401).
    InvalidToken,
    /// The middleware found neither header nor `access_token` cookie (401).
    MissingToken,
    /// The validator refused the token taken by the middleware (401).
    InvalidOrExpiredToken,
}

/// The HTTP status that answers a rejection.
pub open spec fn rejection_status(r: AuthRejection) -> u16 {
    match r {
        AuthRejection::MissingValidator => 500,
        _ => 401,
    }
}

impl AuthRejection {
    /// The HTTP status of the response.
    pub fn status(&self) -> (r: u16)
        ensures
            r == rejection_status(*self),
    {
        match self {
            AuthRejection::MissingValidator => 500,
            _ => 401,
        }
    }

    /// The text of the response.
    pub fn message(&self) -> (r: &'static str)
        ensures
            r@ == match *self {
                AuthRejection::MissingValidator => "Auth Extractor: Missing Validate<T> from app state"@,
                AuthRejection::MissingHeader => "Missing Authorization header"@,
                AuthRejection::InvalidHeaderFormat => "Invalid header format"@,
                AuthRejection::InvalidScheme => "Invalid auth scheme"@,
                AuthRejection::InvalidToken => "Invalid token"@,
                AuthRejection::MissingToken => "Missing authorization header"@,
                AuthRejection::InvalidOrExpiredToken => "Invalid or expired token"@,
            },
    {
        match self {
            AuthRejection::MissingValidator => "Auth Extractor: Missing Validate<T> from app state",
            AuthRejection::MissingHeader => "Missing Authorization header",
            AuthRejection::InvalidHeaderFormat => "Invalid header format",
            AuthRejection::InvalidScheme => "Invalid auth scheme",
            AuthRejection::InvalidToken => "Invalid token",
            AuthRejection::MissingToken => "Missing authorization header",
            AuthRejection::InvalidOrExpiredToken => "Invalid or expired token",
        }
    }
}

/// The token after the bearer scheme, as the extractor reads the header.
pub fn bearer_token(header: &str) -> (r: Option<String>)
    ensures
        match r {
            Some(t) => has_prefix(header@, bearer_prefix()) && t@ == header@.skip(7),
            None => !has_prefix(header@, bearer_prefix()),
        },
{
    proof {
        reveal_strlit("Bearer ");
        assert("Bearer "@ =~= bearer_prefix());
    }
    strip_prefix(header, "Bearer ")
}

/// The token that the middleware and the raw-token extractor read: the
/// header text with every `"Bearer "` removed, or else the `access_token`
/// cookie.
pub open spec fn request_token_spec(authorization: HeaderText, cookie: Option<Seq<char>>) -> Option<
    Seq<char>,
> {
    match authorization {
        HeaderText::Text(h) => Some(remove_all(h@, bearer_prefix())),
        _ => cookie,
    }
}

/// The token that the middleware and the raw-token extractor read.
pub fn request_token(authorization: &HeaderText, cookie: Option<&str>) -> (r: Option<String>)
    ensures
        match (r, request_token_spec(*authorization, match cookie {
            Some(c) => Some(c@),
            None => None,
        })) {
            (Some(t), Some(s)) => t@ == s,
            (None, None) => true,
            _ => false,
        },
{
    match authorization {
        HeaderText::Text(h) => {
            proof {
                reveal_strlit("Bearer ");
                assert("Bearer "@ =~= bearer_prefix());
            }
            Some(remove_all_occurrences(h.as_str(), "Bearer "))
        },
        _ => match cookie {
            Some(c) => Some(String::from_str(c)),
            None => None,
        },
    }
}

/// A raw bearer token taken from a request, for validation by hand.
pub struct Access {
    pub token: String,
}

impl Access {
    /// The token of a request, or `MissingToken` when it has neither an
    /// `Authorization` header nor an `access_token` cookie.
    pub fn from_parts(authorization: &HeaderText, cookie: Option<&str>) -> (r: Result<
        Access,
        AuthRejection,
    >)
        ensures
            match r {
                Ok(a) => request_token_spec(*authorization, match cookie {
                    Some(c) => Some(c@),
                    None => None,
                }) == Some(a.token@),
                Err(e) => e == AuthRejection::MissingToken && request_token_spec(
                    *authorization,
                    match cookie {
                        Some(c) => Some(c@),
                        None => None,
                    },
                ) is None,
            },
    {
        match request_token(authorization, cookie) {
            Some(token) => Ok(Access { token }),
            None => Err(AuthRejection::MissingToken),
        }
    }
}

/// Claims of type `T` taken from a request by the extractor.
pub struct Auth<T>(pub T);

/// What the extractor does next.
pub enum ExtractStep<T> {
    /// Claims were already present on the request: use them.
    Ready(T),
    /// Hand this token to the validator.
    Validate(String),
    /// Refuse the request.
    Reject(AuthRejection),
}

/// The extractor's decisions, in order: claims already on the request are
/// used as they are; then a validator must be registered; then the token is
/// the header's text after the bearer scheme, or, when the request has no
/// readable header, its `access_token` cookie.
pub open spec fn extract_step_ok<T>(
    existing: Option<T>,
    has_validator: bool,
    authorization: HeaderText,
    cookie: Option<Seq<char>>,
    r: ExtractStep<T>,
) -> bool {
    match existing {
        Some(c) => r == ExtractStep::Ready(c),
        None => if !has_validator {
            r == ExtractStep::<T>::Reject(AuthRejection::MissingValidator)
        } else {
            match authorization {
                HeaderText::Text(h) => if has_prefix(h@, bearer_prefix()) {
                    r matches ExtractStep::Validate(t) && t@ == h@.skip(7)
                } else {
                    r == ExtractStep::<T>::Reject(AuthRejection::InvalidScheme)
                },
                _ => match cookie {
                    Some(c) => r matches ExtractStep::Validate(t) && t@ == c,
                    None => if authorization is Absent {
                        r == ExtractStep::<T>::Reject(AuthRejection::MissingHeader)
                    } else {
                        r == ExtractStep::<T>::Reject(AuthRejection::InvalidHeaderFormat)
                    },
                },
            }
        },
    }
}

/// The optional text's view.
pub open spec fn opt_text(o: Option<&str>) -> Option<Seq<char>> {
    match o {
        Some(c) => Some(c@),
        None => None,
    }
}

/// The extractor's next step for a request.
pub fn extract_step<T>(
    existing: Option<T>,
    has_validator: bool,
    authorization: HeaderText,
    cookie: Option<&str>,
) -> (r: ExtractStep<T>)
    ensures
        extract_step_ok(existing, has_validator, authorization, opt_text(cookie), r),
{
    match existing {
        Some(c) => ExtractStep::Ready(c),
        None => {
            if !has_validator {
                return ExtractStep::Reject(AuthRejection::MissingValidator);
            }
            match authorization {
                HeaderText::Text(h) => match bearer_token(h.as_str()) {
                    Some(t) => ExtractStep::Validate(t),
                    None => ExtractStep::Reject(AuthRejection::InvalidScheme),
                },
                HeaderText::Absent => match cookie {
                    Some(c) => ExtractStep::Validate(c.to_string()),
                    None => ExtractStep::Reject(AuthRejection::MissingHeader),
                },
                HeaderText::Unreadable => match cookie {
                    Some(c) => ExtractStep::Validate(c.to_string()),
                    None => ExtractStep::Reject(AuthRejection::InvalidHeaderFormat),
                },
            }
        },
    }
}

impl<T: 'static> Auth<T> {
    /// The extractor's answer once the validator has answered.
    pub fn from_validation(validated: Result<T, anyhow::Error>) -> (r: Result<Auth<T>, AuthRejection>)
        ensures
            match validated {
                Ok(c) => r == Ok::<Auth<T>, AuthRejection>(Auth(c)),
                Err(_) => r == Err::<Auth<T>, AuthRejection>(AuthRejection::InvalidToken),
            },
    {
        match validated {
            Ok(c) => Ok(Auth(c)),
            Err(_) => Err(AuthRejection::InvalidToken),
        }
    }

    /// The extractor: claims already on the request, or those that
    /// `validator` finds in the bearer token of the `Authorization` header,
    /// or, when the request has no readable header, in its `access_token`
    /// cookie.
    pub fn extract(
        existing: Option<T>,
        validator: Option<&dyn Validate<T>>,
        authorization: HeaderText,
        cookie: Option<&str>,
    ) -> (r: Result<Auth<T>, AuthRejection>)
        ensures
            match (existing, validator) {
                (Some(c), _) => r == Ok::<Auth<T>, AuthRejection>(Auth(c)),
                (None, None) => r == Err::<Auth<T>, AuthRejection>(AuthRejection::MissingValidator),
                (None, Some(v)) => match authorization {
                    HeaderText::Text(h) => if has_prefix(h@, bearer_prefix()) {
                        validated_by(v, h@.skip(7), r)
                    } else {
                        r == Err::<Auth<T>, AuthRejection>(AuthRejection::InvalidScheme)
                    },
                    _ => match cookie {
                        Some(c) => validated_by(v, c@, r),
                        None => if authorization is Absent {
                            r == Err::<Auth<T>, AuthRejection>(AuthRejection::MissingHeader)
                        } else {
                            r == Err::<Auth<T>, AuthRejection>(AuthRejection::InvalidHeaderFormat)
                        },
                    },
                },
            },
    {
        match extract_step(existing, validator.is_some(), authorization, cookie) {
            ExtractStep::Ready(c) => Ok(Auth(c)),
            ExtractStep::Reject(e) => Err(e),
            ExtractStep::Validate(token) => match validator {
                Some(v) => {
                    let verdict = v.validate(token.as_str());
                    let ghost answered = verdict;
                    let r = Self::from_validation(verdict);
                    proof {
                        if answered is Err {
                            assert(v.answers(token@, Err(answered->Err_0)));
                        }
                    }
                    r
                },
                None => Err(AuthRejection::MissingValidator),
            },
        }
    }
}

/// The extractor's answer is the validator's verdict on `token`: the claims
/// it accepts, or `InvalidToken` when it refuses the token.
pub open spec fn validated_by<T, V: Validate<T> + ?Sized>(
    v: &V,
    token: Seq<char>,
    r: Result<Auth<T>, AuthRejection>,
) -> bool {
    match r {
        Ok(Auth(c)) => v.answers(token, Ok(c)),
        Err(e) => e == AuthRejection::InvalidToken && exists|err: anyhow::Error|
            #[trigger] v.answers(token, Err(err)),
    }
}

} // verus!
