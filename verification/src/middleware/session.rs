//! Cookie-based server-side sessions. The cookie holds the session's id (a
//! UUID); the session itself lives in a store. A request without a usable
//! cookie gets a fresh default session and a new cookie, or, when sessions
//! are required, is refused with 401. A session is written back only when
//! the handler asked to change it.

use crate::middleware::share;
use crate::ids::{hyphenated, is_v4, parse_uuid, parsed_uuid, random_uuid_v4, uuid_text};
use std::rc::Rc;
use std::sync::Arc;
use vstd::prelude::*;

verus! {

/// Sessions kept in `store`, identified by the cookie `cookie_name`.
pub struct SessionMiddleware<St> {
    store: Arc<St>,
    cookie_name: String,
    required: bool,
}

/// `SessionMiddleware` wrapped around a service.
pub struct SessionMiddlewareService<S, St> {
    service: Rc<S>,
    config: SessionMiddleware<St>,
}

/// The cookie name used unless another is set: `session`.
pub open spec fn default_cookie_name() -> Seq<char> {
    seq!['s', 'e', 's', 's', 'i', 'o', 'n']
}

impl<St> SessionMiddleware<St> {
    pub closed spec fn store_spec(&self) -> Arc<St> {
        self.store
    }

    pub closed spec fn cookie_spec(&self) -> Seq<char> {
        self.cookie_name@
    }

    pub closed spec fn required_spec(&self) -> bool {
        self.required
    }

    /// Sessions in `store`; a request without a usable cookie gets a fresh
    /// session.
    pub fn new(store: Arc<St>) -> (r: Self)
        ensures
            r.store_spec() == store,
            r.cookie_spec() == default_cookie_name(),
            !r.required_spec(),
    {
        proof {
            reveal_strlit("session");
        }
        Self { store, cookie_name: String::from_str("session"), required: false }
    }

    /// Sessions in `store`; a request without a usable cookie is refused.
    pub fn required(store: Arc<St>) -> (r: Self)
        ensures
            r.store_spec() == store,
            r.cookie_spec() == default_cookie_name(),
            r.required_spec(),
    {
        proof {
            reveal_strlit("session");
        }
        Self { store, cookie_name: String::from_str("session"), required: true }
    }

    /// The same, with the cookie named `name`.
    pub fn cookie_name(self, name: String) -> (r: Self)
        ensures
            r.store_spec() == self.store_spec(),
            r.cookie_spec() == name@,
            r.required_spec() == self.required_spec(),
    {
        Self { cookie_name: name, ..self }
    }

    /// The store.
    pub fn store(&self) -> (r: &Arc<St>)
        ensures
            *r == self.store_spec(),
    {
        &self.store
    }

    /// The cookie's name.
    pub fn cookie(&self) -> (r: &str)
        ensures
            r@ == self.cookie_spec(),
    {
        self.cookie_name.as_str()
    }

    /// Wraps the middleware around `service`.
    pub fn new_transform<S>(&self, service: S) -> (r: SessionMiddlewareService<S, St>)
        ensures
            r.service_spec() == service,
            r.config_spec().store_spec() == self.store_spec(),
            r.config_spec().cookie_spec() == self.cookie_spec(),
            r.config_spec().required_spec() == self.required_spec(),
    {
        let config = SessionMiddleware {
            store: share(&self.store),
            cookie_name: self.cookie_name.clone(),
            required: self.required,
        };
        SessionMiddlewareService { service: Rc::new(service), config }
    }
}

/// Where a request stands in the session middleware.
pub enum SessionPhase {
    /// Nothing is known of the request yet.
    Start,
    /// The store is asked for session `id`.
    Loading { id: u128 },
    /// The handler runs with session `id`; `fresh` when it was just created.
    Serving { id: u128, fresh: bool },
    /// Session `id` is being written back.
    Saving { id: u128, fresh: bool },
    /// The request has been answered.
    Done,
}

/// What happened since the last step.
pub enum SessionEvent {
    /// The request arrived, with the session cookie's value if it has one.
    Request { cookie: Option<String> },
    /// The store answered whether it holds the session (`Err` on failure).
    Loaded { found: Result<bool, ()> },
    /// The handler answered; `dirty` when it asked to change the session.
    Responded { dirty: bool },
    /// The store answered the write (`Err` on failure).
    Saved { result: Result<(), ()> },
}

/// What the middleware does next.
pub enum SessionAction {
    /// Ask the store for session `id`.
    Load { id: u128 },
    /// Call the handler with the stored session `id`.
    Serve { id: u128 },
    /// Call the handler with a fresh default session `id`.
    ServeFresh { id: u128 },
    /// Answer 401 Unauthorized.
    Reject,
    /// Write session `id` back to the store.
    Save { id: u128 },
    /// Pass the handler's answer on, setting the cookie to `set_cookie`
    /// when there is one.
    Respond { set_cookie: Option<String> },
    /// The store failed: answer with an error.
    Fail,
    /// The event does not belong to this phase.
    Unexpected,
}

/// The cookie to set on the answer: the session's id for a fresh session.
pub open spec fn cookie_set(id: u128, fresh: bool, set_cookie: Option<String>) -> bool {
    if fresh {
        set_cookie matches Some(c) && c@ == hyphenated(id)
    } else {
        set_cookie is None
    }
}

/// How a request starts once its cookie has been read as a session id
/// (`parsed`, nothing when it has no cookie or the cookie is not a UUID).
pub open spec fn start_ok(required: bool, parsed: Option<u128>, next: SessionPhase, action: SessionAction) -> bool {
    match parsed {
        Some(id) => next == SessionPhase::Loading { id } && action == SessionAction::Load { id },
        None => if required {
            next is Done && action is Reject
        } else {
            next matches SessionPhase::Serving { id, fresh } && fresh && is_v4(id) && action
                == SessionAction::ServeFresh { id }
        },
    }
}

/// One step of the session middleware, `required` or not.
pub open spec fn session_step_ok(
    required: bool,
    phase: SessionPhase,
    event: SessionEvent,
    next: SessionPhase,
    action: SessionAction,
) -> bool {
    match (phase, event) {
        (SessionPhase::Start, SessionEvent::Request { cookie }) => start_ok(
            required,
            match cookie {
                Some(c) => parsed_uuid(c@),
                None => None,
            },
            next,
            action,
        ),
        (SessionPhase::Loading { id }, SessionEvent::Loaded { found }) => match found {
            Ok(true) => next == SessionPhase::Serving { id, fresh: false } && action
                == SessionAction::Serve { id },
            Ok(false) => if required {
                next is Done && action is Reject
            } else {
                next matches SessionPhase::Serving { id: n, fresh } && fresh && is_v4(n) && action
                    == SessionAction::ServeFresh { id: n }
            },
            Err(_) => next is Done && action is Fail,
        },
        (SessionPhase::Serving { id, fresh }, SessionEvent::Responded { dirty }) => if dirty {
            next == SessionPhase::Saving { id, fresh } && action == SessionAction::Save { id }
        } else {
            next is Done && (action matches SessionAction::Respond { set_cookie } && cookie_set(
                id,
                fresh,
                set_cookie,
            ))
        },
        (SessionPhase::Saving { id, fresh }, SessionEvent::Saved { result }) => match result {
            Ok(_) => next is Done && (action matches SessionAction::Respond { set_cookie }
                && cookie_set(id, fresh, set_cookie)),
            Err(_) => next is Done && action is Fail,
        },
        _ => next is Done && action is Unexpected,
    }
}

/// The answer once the handler is done with session `id`.
fn respond(id: u128, fresh: bool) -> (r: SessionAction)
    ensures
        r matches SessionAction::Respond { set_cookie } && cookie_set(id, fresh, set_cookie),
{
    if fresh {
        SessionAction::Respond { set_cookie: Some(uuid_text(id)) }
    } else {
        SessionAction::Respond { set_cookie: None }
    }
}

impl<S, St> SessionMiddlewareService<S, St> {
    pub closed spec fn service_spec(&self) -> S {
        *self.service
    }

    pub closed spec fn config_spec(&self) -> SessionMiddleware<St> {
        self.config
    }

    /// The wrapped service, shared.
    pub fn inner(&self) -> (r: &Rc<S>)
        ensures
            **r == self.service_spec(),
    {
        &self.service
    }

    /// The configuration.
    pub fn config(&self) -> (r: &SessionMiddleware<St>)
        ensures
            *r == self.config_spec(),
    {
        &self.config
    }

    /// How a request starts, its cookie read as the session id `parsed`.
    pub fn start(&self, parsed: Option<u128>) -> (r: (SessionPhase, SessionAction))
        ensures
            start_ok(self.config_spec().required_spec(), parsed, r.0, r.1),
    {
        match parsed {
            Some(id) => (SessionPhase::Loading { id }, SessionAction::Load { id }),
            None => {
                if self.config.required {
                    (SessionPhase::Done, SessionAction::Reject)
                } else {
                    let id = random_uuid_v4();
                    (SessionPhase::Serving { id, fresh: true }, SessionAction::ServeFresh { id })
                }
            },
        }
    }

    /// One step of the middleware on a request.
    pub fn step(&self, phase: SessionPhase, event: SessionEvent) -> (r: (SessionPhase, SessionAction))
        ensures
            session_step_ok(self.config_spec().required_spec(), phase, event, r.0, r.1),
            phase is Start ==> forall|v: u128|
                #![trigger hyphenated(v)]
                event matches SessionEvent::Request { cookie: Some(c) } && c@ == hyphenated(v)
                    ==> r.1 == (SessionAction::Load { id: v }),
    {
        let required = self.config.required;
        match (phase, event) {
            (SessionPhase::Start, SessionEvent::Request { cookie }) => {
                let parsed = match &cookie {
                    Some(c) => parse_uuid(c.as_str()),
                    None => None,
                };
                self.start(parsed)
            },
            (SessionPhase::Loading { id }, SessionEvent::Loaded { found }) => match found {
                Ok(true) => (SessionPhase::Serving { id, fresh: false }, SessionAction::Serve { id }),
                Ok(false) => {
                    if required {
                        (SessionPhase::Done, SessionAction::Reject)
                    } else {
                        let n = random_uuid_v4();
                        (SessionPhase::Serving { id: n, fresh: true }, SessionAction::ServeFresh { id: n })
                    }
                },
                Err(_) => (SessionPhase::Done, SessionAction::Fail),
            },
            (SessionPhase::Serving { id, fresh }, SessionEvent::Responded { dirty }) => {
                if dirty {
                    (SessionPhase::Saving { id, fresh }, SessionAction::Save { id })
                } else {
                    (SessionPhase::Done, respond(id, fresh))
                }
            },
            (SessionPhase::Saving { id, fresh }, SessionEvent::Saved { result }) => match result {
                Ok(_) => (SessionPhase::Done, respond(id, fresh)),
                Err(_) => (SessionPhase::Done, SessionAction::Fail),
            },
            _ => (SessionPhase::Done, SessionAction::Unexpected),
        }
    }
}

/// With sessions required, the handler only ever runs with a session the
/// store holds: no step serves a fresh session.
pub proof fn law_required_never_serves_fresh(
    phase: SessionPhase,
    event: SessionEvent,
    next: SessionPhase,
    action: SessionAction,
)
    requires
        session_step_ok(true, phase, event, next, action),
    ensures
        !(action is ServeFresh),
        action is Serve ==> phase is Loading && event == (SessionEvent::Loaded { found: Ok(true) }),
{
}

/// A session is written back only when the handler asked to change it.
pub proof fn law_saved_only_when_dirty(
    required: bool,
    phase: SessionPhase,
    event: SessionEvent,
    next: SessionPhase,
    action: SessionAction,
)
    requires
        session_step_ok(required, phase, event, next, action),
        action is Save,
    ensures
        event == (SessionEvent::Responded { dirty: true }),
{
}

/// A fresh session's cookie carries its id: the answer sets the cookie to
/// the session's id, and only for a fresh session.
pub proof fn law_fresh_session_sets_its_cookie(
    required: bool,
    id: u128,
    fresh: bool,
    dirty: bool,
    next: SessionPhase,
    action: SessionAction,
)
    requires
        session_step_ok(
            required,
            SessionPhase::Serving { id, fresh },
            SessionEvent::Responded { dirty },
            next,
            action,
        ),
        !dirty,
    ensures
        action matches SessionAction::Respond { set_cookie } && (fresh <==> set_cookie is Some) && (
        fresh ==> set_cookie->0@ == hyphenated(id)),
{
}

/// A session the handler asked to change is written back, fresh or
/// loaded: the next action saves it under its id.
pub proof fn law_dirty_session_is_saved(
    required: bool,
    id: u128,
    fresh: bool,
    next: SessionPhase,
    action: SessionAction,
)
    requires
        session_step_ok(
            required,
            SessionPhase::Serving { id, fresh },
            SessionEvent::Responded { dirty: true },
            next,
            action,
        ),
    ensures
        action == (SessionAction::Save { id }),
        next == (SessionPhase::Saving { id, fresh }),
{
}

} // verus!
