use vstd::prelude::*;

use crate::http::{AppConfig, Endpoint, Method, Route};

verus! {

/// The path of the collection of users.
pub const USERS_PATH: &'static str = "/v1/user/";

/// The path of one user, by id.
pub const USER_PATH: &'static str = "/v1/user/{user_id}";

/// The routes of the user resource: one per repository operation.
pub open spec fn user_routes() -> Seq<Route> {
    seq![
        Route { method: Method::Get, path: USER_PATH, endpoint: Endpoint::GetUser },
        Route { method: Method::Post, path: USERS_PATH, endpoint: Endpoint::CreateUser },
        Route { method: Method::Put, path: USERS_PATH, endpoint: Endpoint::UpdateUser },
        Route { method: Method::Delete, path: USER_PATH, endpoint: Endpoint::DeleteUser },
    ]
}

/// Adds the routes of the user resource to `cfg`.
pub fn service(cfg: &mut AppConfig)
    ensures
        final(cfg).routes@ == old(cfg).routes@ + user_routes(),
        final(cfg).thread_index == old(cfg).thread_index,
{
    cfg.routes.push(Route { method: Method::Get, path: USER_PATH, endpoint: Endpoint::GetUser });
    cfg.routes.push(Route { method: Method::Post, path: USERS_PATH, endpoint: Endpoint::CreateUser });
    cfg.routes.push(Route { method: Method::Put, path: USERS_PATH, endpoint: Endpoint::UpdateUser });
    cfg.routes.push(
        Route { method: Method::Delete, path: USER_PATH, endpoint: Endpoint::DeleteUser },
    );
    assert(cfg.routes@ =~= old(cfg).routes@ + user_routes());
}

} // verus!
