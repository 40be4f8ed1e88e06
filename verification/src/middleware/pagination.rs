//! `?page=&limit=` parameters, made available for the whole handling of a
//! request.

use std::rc::Rc;
use vstd::prelude::*;

verus! {

/// A page number and a page size.
#[derive(Clone, Copy, Debug, PartialEq, Eq, Structural)]
pub struct Pagination {
    pub page: u32,
    pub limit: u32,
}

/// The page size used when none is given.
pub const DEFAULT_LIMIT: u32 = 100;

impl Default for Pagination {
    /// Page 0, 100 items.
    fn default() -> (r: Pagination)
        ensures
            r == (Pagination { page: 0, limit: DEFAULT_LIMIT }),
    {
        Pagination { page: 0, limit: DEFAULT_LIMIT }
    }
}

impl Pagination {
    /// The pagination in effect: the one set for the current request
    /// (`scoped`), or the default outside of one.
    pub fn get(scoped: Option<Pagination>) -> (r: Pagination)
        ensures
            r == match scoped {
                Some(p) => p,
                None => Pagination { page: 0, limit: DEFAULT_LIMIT },
            },
    {
        match scoped {
            Some(p) => p,
            None => Pagination::default(),
        }
    }
}

/// The query parameters as given, each possibly missing.
#[derive(Clone, Copy, Debug)]
pub struct SafePagination {
    pub page: Option<u32>,
    pub limit: Option<u32>,
}

impl Default for SafePagination {
    /// Page 0, 100 items.
    fn default() -> (r: Self)
        ensures
            r.page == Some(0u32),
            r.limit == Some(DEFAULT_LIMIT),
    {
        Self { page: Some(0), limit: Some(DEFAULT_LIMIT) }
    }
}

impl SafePagination {
    /// The pagination asked for, missing parts taken from the default.
    pub fn get(&self) -> (r: Pagination)
        ensures
            r.page == match self.page {
                Some(p) => p,
                None => 0,
            },
            r.limit == match self.limit {
                Some(l) => l,
                None => DEFAULT_LIMIT,
            },
    {
        Pagination {
            page: match self.page {
                Some(p) => p,
                None => 0,
            },
            limit: match self.limit {
                Some(l) => l,
                None => DEFAULT_LIMIT,
            },
        }
    }
}

/// The pagination the middleware sets for a request whose query read as
/// `query` (`None` when it did not parse): a query that does not parse
/// counts as the default.
pub fn pagination_for(query: Option<SafePagination>) -> (r: Pagination)
    ensures
        r == match query {
            Some(q) => Pagination {
                page: match q.page {
                    Some(p) => p,
                    None => 0,
                },
                limit: match q.limit {
                    Some(l) => l,
                    None => DEFAULT_LIMIT,
                },
            },
            None => Pagination { page: 0, limit: DEFAULT_LIMIT },
        },
{
    match query {
        Some(q) => q.get(),
        None => SafePagination::default().get(),
    }
}

/// Sets the pagination of every request for the rest of its handling.
pub struct PaginationMiddleware;

/// `PaginationMiddleware` wrapped around a service.
pub struct PaginationMiddlewareService<S> {
    service: Rc<S>,
}

impl PaginationMiddleware {
    /// Wraps the middleware around `service`.
    pub fn new_transform<S>(&self, service: S) -> (r: PaginationMiddlewareService<S>)
        ensures
            r.service_spec() == service,
    {
        PaginationMiddlewareService { service: Rc::new(service) }
    }
}

impl<S> PaginationMiddlewareService<S> {
    pub closed spec fn service_spec(&self) -> S {
        *self.service
    }

    /// The wrapped service, shared.
    pub fn inner(&self) -> (r: &Rc<S>)
        ensures
            **r == self.service_spec(),
    {
        &self.service
    }
}

} // verus!
