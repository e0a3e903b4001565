use vstd::prelude::*;

use crate::http::{AppConfig, Endpoint, Method, Route};

verus! {

/// The path of the health check.
pub const HEALTH_PATH: &'static str = "/health";

/// The routes of the health check.
pub open spec fn health_routes() -> Seq<Route> {
    seq![Route { method: Method::Get, path: HEALTH_PATH, endpoint: Endpoint::Health }]
}

/// Adds the health check to `cfg`.
pub fn service(cfg: &mut AppConfig)
    ensures
        final(cfg).routes@ == old(cfg).routes@ + health_routes(),
        final(cfg).thread_index == old(cfg).thread_index,
{
    cfg.routes.push(Route { method: Method::Get, path: HEALTH_PATH, endpoint: Endpoint::Health });
    assert(cfg.routes@ =~= old(cfg).routes@ + health_routes());
}

} // verus!
