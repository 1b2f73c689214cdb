use vstd::prelude::*;

use crate::lifecycle::{
    lemma_run_events_preserves_wf_and_wiring, spec_run_events, spec_step, ServerEvent,
    ServerHandle, ServerState,
};
use crate::listener::Listener;
use crate::logging::{IdSource, LogEvent};
use crate::pool::Pool;
use crate::routes::{
    full_match_at, has_full_match, has_path_match, lemma_standard_dispatch, spec_dispatch,
    Dispatch, HandlerId, Method,
};
use crate::startup::freshly_configured;

verus! {

/// Status of the fixed success response of the liveness route.
pub const STATUS_OK: u16 = 200;

/// Status answered when no route is registered under the request's path.
pub const STATUS_NOT_FOUND: u16 = 404;

/// Status answered when the path is registered but not with the request's
/// method. This is the explicit policy for a method mismatch on a known
/// path.
pub const STATUS_METHOD_NOT_ALLOWED: u16 = 405;

/// One HTTP response as the pipeline hands it back to the connection.
#[derive(Clone, Debug)]
pub struct Response {
    pub status: u16,
    pub body: String,
}

/// What the external subscription handler answered for one request. The
/// handler's internal logic is an external collaborator; the pipeline
/// only guarantees how its answer — success or failure — is carried to
/// the response and to the logs.
#[derive(Clone, Debug)]
pub struct HandlerOutcome {
    /// The status the handler chose; a failure inside the handler is
    /// translated to an HTTP error status, never a crash.
    pub status: u16,
    /// The body the handler produced.
    pub body: String,
}

/// Everything one request produced: the response, the middleware's log
/// entries, and which pool instance the handler observed, if any.
pub struct HandledRequest {
    pub response: Response,
    pub logs: Vec<LogEvent>,
    /// The identity of the pool instance the matched handler observed;
    /// nothing when no pool-using handler ran.
    pub pool_seen: Option<u64>,
}

/// The mathematical image of one handled request.
pub struct HandledModel {
    pub status: u16,
    pub body: Seq<char>,
    pub pool_seen: Option<u64>,
    pub logs: Seq<LogEvent>,
}

/// The status a request is answered with, given where dispatch sent it.
pub open spec fn spec_status(d: Dispatch, handler: HandlerOutcome) -> u16 {
    match d {
        Dispatch::ToHandler(HandlerId::HealthCheck) => STATUS_OK,
        Dispatch::ToHandler(HandlerId::Subscribe) => handler.status,
        Dispatch::NotFound => STATUS_NOT_FOUND,
        Dispatch::MethodNotAllowed => STATUS_METHOD_NOT_ALLOWED,
    }
}

/// What handling one request means: dispatch decides the handler; the
/// liveness route answers the fixed success response; the subscription
/// route answers whatever the external handler answered and observes the
/// handle's one shared pool; an unmatched request is answered directly.
/// Around all of that, the logging middleware emits exactly one start
/// entry and one end entry, both carrying the request's correlation
/// identifier.
pub open spec fn spec_process(
    h: ServerHandle,
    method: Method,
    path: Seq<char>,
    handler: HandlerOutcome,
    id: u64,
) -> HandledModel {
    let d = spec_dispatch(h.routes.spec_routes(), method, path);
    let status = spec_status(d, handler);
    HandledModel {
        status,
        body: if d == Dispatch::ToHandler(HandlerId::Subscribe) {
            handler.body@
        } else {
            Seq::<char>::empty()
        },
        pool_seen: if d == Dispatch::ToHandler(HandlerId::Subscribe) {
            Some(h.pool.pool.id)
        } else {
            None
        },
        logs: seq![
            LogEvent::RequestStarted { correlation_id: id },
            LogEvent::RequestEnded { correlation_id: id, status },
        ],
    }
}

/// Carries one request through the whole pipeline: the middleware assigns
/// a fresh correlation identifier and logs the start, dispatch picks the
/// route, the response is produced, and the middleware logs the end with
/// the same identifier and the outcome. Total for every method and path:
/// an unmatched request is answered, never a panic or a hang.
///
/// The subscription handler itself is an external collaborator, so its
/// answer for this request is taken as an argument; the pipeline
/// guarantees what happens around it for every possible answer.
pub fn process_request(
    handle: &ServerHandle,
    method: Method,
    path: &String,
    handler: HandlerOutcome,
    ids: &mut IdSource,
) -> (r: HandledRequest)
    requires
        handle.routes.wf(),
        old(ids).can_issue(),
    ensures
        ({
            let m = spec_process(*handle, method, path@, handler, old(ids).spec_next());
            &&& r.response.status == m.status
            &&& r.response.body@ == m.body
            &&& r.pool_seen == m.pool_seen
            &&& r.logs@ == m.logs
        }),
        final(ids).spec_next() == old(ids).spec_next() + 1,
{
    let id = ids.fresh();
    let mut logs: Vec<LogEvent> = Vec::new();
    logs.push(LogEvent::RequestStarted { correlation_id: id });
    let d = handle.routes.dispatch(method, path);
    let (response, pool_seen): (Response, Option<u64>) = match d {
        Dispatch::ToHandler(HandlerId::HealthCheck) => (
            Response { status: STATUS_OK, body: String::new() },
            None,
        ),
        Dispatch::ToHandler(HandlerId::Subscribe) => (
            Response { status: handler.status, body: handler.body },
            Some(handle.pool.id()),
        ),
        Dispatch::NotFound => (Response { status: STATUS_NOT_FOUND, body: String::new() }, None),
        Dispatch::MethodNotAllowed => (
            Response { status: STATUS_METHOD_NOT_ALLOWED, body: String::new() },
            None,
        ),
    };
    logs.push(LogEvent::RequestEnded { correlation_id: id, status: response.status });
    proof {
        assert(logs@ =~= spec_process(*handle, method, path@, handler, id).logs);
    }
    HandledRequest { response, logs, pool_seen }
}

/// Every request — matched or not, handler success or handler failure —
/// produces exactly one start/end log pair, both entries sharing the one
/// correlation identifier generated for the request, the end entry
/// carrying the response's status.
pub proof fn lemma_one_correlated_log_pair(
    h: ServerHandle,
    method: Method,
    path: Seq<char>,
    handler: HandlerOutcome,
    id: u64,
)
    ensures
        ({
            let m = spec_process(h, method, path, handler, id);
            &&& m.logs.len() == 2
            &&& m.logs[0] == (LogEvent::RequestStarted { correlation_id: id })
            &&& m.logs[1] == (LogEvent::RequestEnded { correlation_id: id, status: m.status })
        }),
{
}

/// Requests served one after the other from one identifier source never
/// share a correlation identifier, so their log pairs stay
/// distinguishable.
pub proof fn lemma_successive_requests_log_distinct_ids(
    h1: ServerHandle,
    h2: ServerHandle,
    method1: Method,
    path1: Seq<char>,
    handler1: HandlerOutcome,
    method2: Method,
    path2: Seq<char>,
    handler2: HandlerOutcome,
    id: u64,
)
    requires
        id < u64::MAX,
    ensures
        ({
            let m1 = spec_process(h1, method1, path1, handler1, id);
            let m2 = spec_process(h2, method2, path2, handler2, (id + 1) as u64);
            m1.logs[0] != m2.logs[0] && m1.logs[1] != m2.logs[1]
        }),
{
}

/// For any adoptable listener and any pool — healthy or not — a freshly
/// constructed handle, once started, is running, accepts a connection,
/// and answers GET /health_check with the fixed success response: status
/// 200 and an empty body, untouched by the pool and by the subscription
/// handler.
pub proof fn lemma_started_handle_answers_health_check(
    h: ServerHandle,
    listener: Listener,
    db_pool: Pool,
    handler: HandlerOutcome,
    id: u64,
)
    requires
        freshly_configured(h, listener, db_pool),
    ensures
        spec_step(h, ServerEvent::Start).state == ServerState::Running,
        spec_step(spec_step(h, ServerEvent::Start), ServerEvent::Accept).in_flight == 1,
        ({
            let m = spec_process(
                spec_step(h, ServerEvent::Start),
                Method::Get,
                "/health_check"@,
                handler,
                id,
            );
            m.status == STATUS_OK && m.body == Seq::<char>::empty()
        }),
{
    lemma_standard_dispatch();
}

/// However the running server evolved, every subscription request —
/// including many in flight concurrently — observes the identical pool
/// instance: the one injected at construction.
pub proof fn lemma_subscriptions_share_one_pool(
    h: ServerHandle,
    listener: Listener,
    db_pool: Pool,
    events1: Seq<ServerEvent>,
    events2: Seq<ServerEvent>,
    handler1: HandlerOutcome,
    handler2: HandlerOutcome,
    id1: u64,
    id2: u64,
)
    requires
        freshly_configured(h, listener, db_pool),
    ensures
        ({
            let m1 = spec_process(
                spec_run_events(h, events1),
                Method::Post,
                "/subscriptions"@,
                handler1,
                id1,
            );
            let m2 = spec_process(
                spec_run_events(h, events2),
                Method::Post,
                "/subscriptions"@,
                handler2,
                id2,
            );
            m1.pool_seen == Some(db_pool.id) && m2.pool_seen == m1.pool_seen
        }),
{
    lemma_run_events_preserves_wf_and_wiring(h, events1);
    lemma_run_events_preserves_wf_and_wiring(h, events2);
    lemma_standard_dispatch();
}

/// A request whose path is not registered at all is answered with the
/// not-found outcome, reaches no handler and no pool, and still gets its
/// one log pair.
pub proof fn lemma_unregistered_path_not_found(
    h: ServerHandle,
    method: Method,
    path: Seq<char>,
    handler: HandlerOutcome,
    id: u64,
)
    requires
        !has_path_match(h.routes.spec_routes(), path),
    ensures
        ({
            let m = spec_process(h, method, path, handler, id);
            &&& m.status == STATUS_NOT_FOUND
            &&& m.pool_seen is None
            &&& m.logs.len() == 2
        }),
{
    let routes = h.routes.spec_routes();
    if has_full_match(routes, method, path) {
        let i = choose|i: int| full_match_at(routes, i, method, path);
        assert(0 <= i < routes.len() && routes[i].path == path);
        assert(has_path_match(routes, path));
    }
}

} // verus!
