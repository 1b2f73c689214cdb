use server_bootstrap::lifecycle::{ServerEvent, ServerState};
use server_bootstrap::listener::Listener;
use server_bootstrap::logging::{IdSource, LogEvent};
use server_bootstrap::pipeline::{process_request, HandledRequest, HandlerOutcome};
use server_bootstrap::pool::{Pool, SharedPool};
use server_bootstrap::routes::{Dispatch, HandlerId, Method, RouteTable};
use server_bootstrap::startup::{run, ConfigError};

fn bound_listener() -> Listener {
    Listener { port: 8080, bound: true }
}

fn some_pool() -> Pool {
    Pool { id: 7, healthy: true }
}

fn ok_outcome() -> HandlerOutcome {
    HandlerOutcome { status: 200, body: String::new() }
}

fn handle_one(
    handle: &server_bootstrap::lifecycle::ServerHandle,
    method: Method,
    path: &str,
    outcome: HandlerOutcome,
    ids: &mut IdSource,
) -> HandledRequest {
    process_request(handle, method, &path.to_string(), outcome, ids)
}

#[test]
fn run_adopts_bound_listener() {
    let listener = bound_listener();
    let handle = run(listener, some_pool()).expect("a bound listener must be adopted");
    assert_eq!(handle.state, ServerState::Configured);
    assert_eq!(handle.in_flight, 0);
    assert!(!handle.draining);
    assert_eq!(handle.listener, listener);
    assert_eq!(handle.pool.pool, some_pool());
}

#[test]
fn run_rejects_unbound_listener() {
    let listener = Listener { port: 8080, bound: false };
    let r = run(listener, some_pool());
    assert_eq!(r.unwrap_err(), ConfigError::ListenerNotAdoptable);
}

#[test]
fn construction_does_not_start_the_server() {
    let handle = run(bound_listener(), some_pool()).unwrap();
    assert_ne!(handle.state, ServerState::Running);
}

#[test]
fn start_moves_configured_to_running() {
    let mut handle = run(bound_listener(), some_pool()).unwrap();
    handle.start();
    assert_eq!(handle.state, ServerState::Running);
}

#[test]
fn stopped_is_terminal() {
    let mut handle = run(bound_listener(), some_pool()).unwrap();
    handle.start();
    handle.shutdown();
    assert_eq!(handle.state, ServerState::Stopped);
    let stopped = handle;
    for event in [
        ServerEvent::Start,
        ServerEvent::Accept,
        ServerEvent::Complete,
        ServerEvent::Shutdown,
        ServerEvent::ConnectionIoError,
        ServerEvent::ListenerFailure,
    ] {
        let mut h = stopped.clone();
        h.step(event);
        assert_eq!(h, stopped);
    }
}

#[test]
fn shutdown_mid_request_lets_it_complete() {
    let mut handle = run(bound_listener(), some_pool()).unwrap();
    handle.start();
    handle.step(ServerEvent::Accept);
    assert_eq!(handle.in_flight, 1);
    handle.shutdown();
    // the in-flight request is still being served: not stopped yet
    assert_eq!(handle.state, ServerState::Running);
    assert_eq!(handle.in_flight, 1);
    assert!(handle.draining);
    handle.step(ServerEvent::Complete);
    assert_eq!(handle.state, ServerState::Stopped);
    assert_eq!(handle.in_flight, 0);
}

#[test]
fn draining_server_accepts_nothing_new() {
    let mut handle = run(bound_listener(), some_pool()).unwrap();
    handle.start();
    handle.step(ServerEvent::Accept);
    handle.shutdown();
    handle.step(ServerEvent::Accept);
    assert_eq!(handle.in_flight, 1);
}

#[test]
fn connection_error_is_isolated() {
    let mut handle = run(bound_listener(), some_pool()).unwrap();
    handle.start();
    handle.step(ServerEvent::Accept);
    handle.step(ServerEvent::Accept);
    let before = handle.clone();
    let mut h = before.clone();
    h.step(ServerEvent::ConnectionIoError);
    assert_eq!(h, before);
}

#[test]
fn listener_failure_drains_then_stops() {
    let mut handle = run(bound_listener(), some_pool()).unwrap();
    handle.start();
    handle.step(ServerEvent::Accept);
    handle.step(ServerEvent::ListenerFailure);
    assert_eq!(handle.state, ServerState::Running);
    handle.step(ServerEvent::Complete);
    assert_eq!(handle.state, ServerState::Stopped);
}

#[test]
fn accept_saturates_at_the_counter_bound() {
    let mut handle = run(bound_listener(), some_pool()).unwrap();
    handle.start();
    handle.in_flight = u64::MAX;
    let before = handle.clone();
    handle.step(ServerEvent::Accept);
    assert_eq!(handle, before);
}

#[test]
fn dispatch_matches_the_two_routes() {
    let table = RouteTable::standard();
    assert_eq!(
        table.dispatch(Method::Get, &"/health_check".to_string()),
        Dispatch::ToHandler(HandlerId::HealthCheck)
    );
    assert_eq!(
        table.dispatch(Method::Post, &"/subscriptions".to_string()),
        Dispatch::ToHandler(HandlerId::Subscribe)
    );
}

#[test]
fn dispatch_unknown_path_is_not_found() {
    let table = RouteTable::standard();
    assert_eq!(table.dispatch(Method::Get, &"/missing".to_string()), Dispatch::NotFound);
    assert_eq!(table.dispatch(Method::Post, &"".to_string()), Dispatch::NotFound);
}

#[test]
fn dispatch_method_mismatch_policy_is_method_not_allowed() {
    let table = RouteTable::standard();
    assert_eq!(
        table.dispatch(Method::Post, &"/health_check".to_string()),
        Dispatch::MethodNotAllowed
    );
    assert_eq!(
        table.dispatch(Method::Get, &"/subscriptions".to_string()),
        Dispatch::MethodNotAllowed
    );
}

#[test]
fn health_check_succeeds_with_empty_body_on_unhealthy_pool() {
    let pool = Pool { id: 3, healthy: false };
    let mut handle = run(bound_listener(), pool).unwrap();
    handle.start();
    let mut ids = IdSource::new();
    let r = handle_one(&handle, Method::Get, "/health_check", ok_outcome(), &mut ids);
    assert_eq!(r.response.status, 200);
    assert!(r.response.body.is_empty());
    assert_eq!(r.pool_seen, None);
}

#[test]
fn every_request_logs_one_correlated_pair() {
    let mut handle = run(bound_listener(), some_pool()).unwrap();
    handle.start();
    let mut ids = IdSource::new();
    let ok = handle_one(&handle, Method::Get, "/health_check", ok_outcome(), &mut ids);
    assert_eq!(
        ok.logs,
        vec![
            LogEvent::RequestStarted { correlation_id: 0 },
            LogEvent::RequestEnded { correlation_id: 0, status: 200 },
        ]
    );
    // a failing handler still gets exactly one pair, with a fresh id
    let failed = HandlerOutcome { status: 500, body: String::new() };
    let err = handle_one(&handle, Method::Post, "/subscriptions", failed, &mut ids);
    assert_eq!(
        err.logs,
        vec![
            LogEvent::RequestStarted { correlation_id: 1 },
            LogEvent::RequestEnded { correlation_id: 1, status: 500 },
        ]
    );
}

#[test]
fn concurrent_subscriptions_observe_one_pool() {
    let pool = Pool { id: 99, healthy: true };
    let mut handle = run(bound_listener(), pool).unwrap();
    handle.start();
    let mut ids = IdSource::new();
    let r1 = handle_one(&handle, Method::Post, "/subscriptions", ok_outcome(), &mut ids);
    let r2 = handle_one(&handle, Method::Post, "/subscriptions", ok_outcome(), &mut ids);
    assert_eq!(r1.pool_seen, Some(99));
    assert_eq!(r2.pool_seen, r1.pool_seen);
}

#[test]
fn shared_pool_clones_share_identity() {
    let shared = SharedPool::new(Pool { id: 5, healthy: true });
    let other = shared.clone_ref();
    assert_eq!(other.id(), shared.id());
    assert_eq!(other.id(), 5);
}

#[test]
fn unmatched_request_is_answered_not_found() {
    let mut handle = run(bound_listener(), some_pool()).unwrap();
    handle.start();
    let mut ids = IdSource::new();
    let r = handle_one(&handle, Method::Get, "/nowhere", ok_outcome(), &mut ids);
    assert_eq!(r.response.status, 404);
    assert_eq!(r.pool_seen, None);
    assert_eq!(r.logs.len(), 2);
}

#[test]
fn method_mismatch_is_answered_not_allowed() {
    let mut handle = run(bound_listener(), some_pool()).unwrap();
    handle.start();
    let mut ids = IdSource::new();
    let r = handle_one(&handle, Method::Post, "/health_check", ok_outcome(), &mut ids);
    assert_eq!(r.response.status, 405);
    assert_eq!(r.pool_seen, None);
}

#[test]
fn correlation_ids_never_repeat() {
    let mut ids = IdSource::new();
    let a = ids.fresh();
    let b = ids.fresh();
    let c = ids.fresh();
    assert_ne!(a, b);
    assert_ne!(b, c);
    assert_ne!(a, c);
}

#[test]
fn scenario_ephemeral_listener_health_and_bad_subscription() {
    // bind to an ephemeral local port, construct and start the handle
    let listener = Listener { port: 0, bound: true };
    let pool = Pool { id: 1, healthy: true };
    let mut handle = run(listener, pool).unwrap();
    handle.start();
    assert_eq!(handle.state, ServerState::Running);
    let mut ids = IdSource::new();

    // a liveness probe answers the fixed success response
    let health = handle_one(&handle, Method::Get, "/health_check", ok_outcome(), &mut ids);
    assert_eq!(health.response.status, 200);
    assert!(health.response.body.is_empty());

    // a subscription with a malformed body: the handler answers its
    // client-error status, and a correlated log pair is still emitted
    let malformed = HandlerOutcome { status: 400, body: "missing name and email".to_string() };
    let bad = handle_one(&handle, Method::Post, "/subscriptions", malformed, &mut ids);
    assert_eq!(bad.response.status, 400);
    assert_eq!(
        bad.logs,
        vec![
            LogEvent::RequestStarted { correlation_id: 1 },
            LogEvent::RequestEnded { correlation_id: 1, status: 400 },
        ]
    );
}
