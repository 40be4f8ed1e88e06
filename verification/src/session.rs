//! A session extractor over a synchronous session store, keyed by the
//! `session_id` cookie.

use vstd::prelude::*;

verus! {

/// Finds a session by its id.
pub trait SessionStore<T>: Send + Sync {
    /// Whether `found` is an answer the store gives when asked for the
    /// session `session_id`. A store that does not say counts every answer
    /// as possible.
    closed spec fn answers(&self, session_id: Seq<char>, found: Option<T>) -> bool {
        true
    }

    /// The session stored under `session_id`, if any.
    fn get(&self, session_id: &str) -> (r: Option<T>)
        ensures
            self.answers(session_id@, r),
    ;
}

/// The session value of a request.
pub struct Session<T>(pub T);

/// Why a request has no session.
#[derive(Debug, Clone, Copy, PartialEq, Eq, Structural)]
pub enum SessionRejection {
    /// No session store was registered with the application (500).
    MissingStore,
    /// The request has no `session_id` cookie (401).
    MissingSession,
    /// The store holds no session under the cookie's id (401).
    InvalidSession,
}

impl SessionRejection {
    /// The HTTP status of the response.
    pub fn status(&self) -> (r: u16)
        ensures
            *self == SessionRejection::MissingStore ==> r == 500,
            *self != SessionRejection::MissingStore ==> r == 401,
    {
        match self {
            SessionRejection::MissingStore => 500,
            _ => 401,
        }
    }

    /// The text of the response.
    pub fn message(&self) -> (r: &'static str)
        ensures
            r@ == match *self {
                SessionRejection::MissingStore => "Session Extractor: Missing session store"@,
                SessionRejection::MissingSession => "Missing session"@,
                SessionRejection::InvalidSession => "Invalid session"@,
            },
    {
        match self {
            SessionRejection::MissingStore => "Session Extractor: Missing session store",
            SessionRejection::MissingSession => "Missing session",
            SessionRejection::InvalidSession => "Invalid session",
        }
    }
}

impl<T: 'static> Session<T> {
    /// The extractor's answer once the store has answered.
    pub fn from_lookup(found: Option<T>) -> (r: Result<Session<T>, SessionRejection>)
        ensures
            match found {
                Some(s) => r == Ok::<Session<T>, SessionRejection>(Session(s)),
                None => r == Err::<Session<T>, SessionRejection>(SessionRejection::InvalidSession),
            },
    {
        match found {
            Some(s) => Ok(Session(s)),
            None => Err(SessionRejection::InvalidSession),
        }
    }

    /// The extractor: the store must be registered and the request must
    /// carry the cookie; then the store, asked for the cookie's value,
    /// decides.
    pub fn lookup(store: Option<&dyn SessionStore<T>>, cookie: Option<&str>) -> (r: Result<
        Session<T>,
        SessionRejection,
    >)
        ensures
            store is None ==> r == Err::<Session<T>, SessionRejection>(
                SessionRejection::MissingStore,
            ),
            store is Some && cookie is None ==> r == Err::<Session<T>, SessionRejection>(
                SessionRejection::MissingSession,
            ),
            match (store, cookie) {
                (Some(st), Some(id)) => match r {
                    Ok(Session(s)) => st.answers(id@, Some(s)),
                    Err(e) => e == SessionRejection::InvalidSession && st.answers(id@, None),
                },
                _ => true,
            },
    {
        match store {
            None => Err(SessionRejection::MissingStore),
            Some(st) => match cookie {
                None => Err(SessionRejection::MissingSession),
                Some(id) => Self::from_lookup(st.get(id)),
            },
        }
    }
}

} // verus!
