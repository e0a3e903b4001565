use std::sync::atomic::AtomicU16;

use mi_api::http::{status, AppConfig, Endpoint, Method};
use mi_api::start;

#[test]
fn statuses_follow_the_outcome() {
    assert_eq!(status(Endpoint::Health, true), 200);
    assert_eq!(status(Endpoint::GetUser, true), 200);
    assert_eq!(status(Endpoint::GetUser, false), 404);
    assert_eq!(status(Endpoint::CreateUser, true), 201);
    assert_eq!(status(Endpoint::CreateUser, false), 500);
    assert_eq!(status(Endpoint::UpdateUser, true), 200);
    assert_eq!(status(Endpoint::UpdateUser, false), 404);
    assert_eq!(status(Endpoint::DeleteUser, true), 200);
    assert_eq!(status(Endpoint::DeleteUser, false), 500);
}

#[test]
fn start_registers_routes_and_thread_index() {
    let counter = AtomicU16::new(1);
    let mut cfg = AppConfig::new();
    start(&counter, &mut cfg);
    assert_eq!(cfg.thread_index, Some(1));
    let routes: Vec<(Method, &str, Endpoint)> =
        cfg.routes.iter().map(|r| (r.method, r.path, r.endpoint)).collect();
    assert_eq!(
        routes,
        vec![
            (Method::Get, "/v1/user/{user_id}", Endpoint::GetUser),
            (Method::Post, "/v1/user/", Endpoint::CreateUser),
            (Method::Put, "/v1/user/", Endpoint::UpdateUser),
            (Method::Delete, "/v1/user/{user_id}", Endpoint::DeleteUser),
            (Method::Get, "/health", Endpoint::Health),
        ]
    );
    let mut second = AppConfig::new();
    start(&counter, &mut second);
    assert_eq!(second.thread_index, Some(2));
}

#[test]
fn health_service_adds_one_route() {
    let mut cfg = AppConfig::new();
    mi_api::health::service(&mut cfg);
    assert_eq!(cfg.routes.len(), 1);
    assert_eq!(cfg.routes[0].path, "/health");
    assert_eq!(cfg.thread_index, None);
    mi_api::v1::service(&mut cfg);
    assert_eq!(cfg.routes.len(), 5);
}
