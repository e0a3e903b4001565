//! A user store behind a storage-agnostic repository contract: the user
//! record, the shared error vocabulary, a verified in-memory table, a
//! concurrent in-memory backend, the decisions of a relational backend, and
//! the routes through which a server exposes them.

pub mod clock;
pub mod error;
pub mod health;
pub mod http;
pub mod laws;
pub mod relational;
pub mod repository;
pub mod table;
pub mod user;
pub mod v1;

use std::sync::atomic::{AtomicU16, Ordering};
use vstd::prelude::*;

use crate::health::health_routes;
use crate::http::AppConfig;
use crate::v1::user_routes;

verus! {

/// Configures one worker's application: takes the next thread index from
/// the shared counter, and adds the user resource and the health check.
pub fn start(thread_counter: &AtomicU16, cfg: &mut AppConfig)
    ensures
        final(cfg).thread_index is Some,
        final(cfg).routes@ == old(cfg).routes@ + user_routes() + health_routes(),
{
    let thread_index = thread_counter.fetch_add(1, Ordering::SeqCst);
    cfg.thread_index = Some(thread_index);
    v1::service(cfg);
    health::service(cfg);
}

} // verus!
