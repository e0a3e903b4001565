//! The request-handling layer as data: which routes an application serves,
//! which repository operation each one calls, and which status it answers.
use vstd::prelude::*;

verus! {

/// An HTTP method.
#[derive(Clone, Copy, PartialEq, Eq, Structural, Debug, Hash)]
pub enum Method {
    Get,
    Post,
    Put,
    Delete,
}

/// What a route does.
#[derive(Clone, Copy, PartialEq, Eq, Structural, Debug, Hash)]
pub enum Endpoint {
    /// Answers that the server runs, naming the worker thread.
    Health,
    /// `get` on the repository.
    GetUser,
    /// `create` on the repository.
    CreateUser,
    /// `update` on the repository.
    UpdateUser,
    /// `delete` on the repository.
    DeleteUser,
}

/// One route: a method and a path pattern, served by an endpoint.
#[derive(Clone, Copy, Debug)]
pub struct Route {
    pub method: Method,
    pub path: &'static str,
    pub endpoint: Endpoint,
}

/// What an application is configured with: its routes, in the order they
/// were added, and the index of the worker thread that serves it.
pub struct AppConfig {
    pub routes: Vec<Route>,
    pub thread_index: Option<u16>,
}

impl AppConfig {
    /// A configuration with no route and no thread index.
    pub fn new() -> (r: AppConfig)
        ensures
            r.routes@ == Seq::<Route>::empty(),
            r.thread_index is None,
    {
        AppConfig { routes: Vec::new(), thread_index: None }
    }
}

pub const OK: u16 = 200;

pub const CREATED: u16 = 201;

pub const BAD_REQUEST: u16 = 400;

pub const NOT_FOUND: u16 = 404;

pub const INTERNAL_SERVER_ERROR: u16 = 500;

/// The status an endpoint answers, by whether its operation succeeded.
pub open spec fn spec_status(endpoint: Endpoint, succeeded: bool) -> u16 {
    match endpoint {
        Endpoint::Health => OK,
        Endpoint::GetUser => if succeeded { OK } else { NOT_FOUND },
        Endpoint::CreateUser => if succeeded { CREATED } else { INTERNAL_SERVER_ERROR },
        Endpoint::UpdateUser => if succeeded { OK } else { NOT_FOUND },
        Endpoint::DeleteUser => if succeeded { OK } else { INTERNAL_SERVER_ERROR },
    }
}

/// The status an endpoint answers, by whether its operation succeeded.
pub fn status(endpoint: Endpoint, succeeded: bool) -> (r: u16)
    ensures
        r == spec_status(endpoint, succeeded),
{
    match endpoint {
        Endpoint::Health => OK,
        Endpoint::GetUser => if succeeded { OK } else { NOT_FOUND },
        Endpoint::CreateUser => if succeeded { CREATED } else { INTERNAL_SERVER_ERROR },
        Endpoint::UpdateUser => if succeeded { OK } else { NOT_FOUND },
        Endpoint::DeleteUser => if succeeded { OK } else { INTERNAL_SERVER_ERROR },
    }
}

} // verus!
