use vstd::prelude::*;

verus! {

/// The HTTP methods the route table distinguishes.
#[derive(Clone, Copy, PartialEq, Eq, Structural, Debug)]
pub enum Method {
    Get,
    Post,
}

/// The handlers this service wires up. Their bodies are external
/// collaborators; the wiring only guarantees which requests reach which
/// handler.
#[derive(Clone, Copy, PartialEq, Eq, Structural, Debug)]
pub enum HandlerId {
    /// Liveness probe: deterministic success, no side effects, no
    /// dependency on the shared pool.
    HealthCheck,
    /// Subscription creation: depends on the shared pool and performs a
    /// write.
    Subscribe,
}

/// The outcome of matching a request line against the route table.
#[derive(Clone, Copy, PartialEq, Eq, Structural, Debug)]
pub enum Dispatch {
    /// Method and path both matched a registered route.
    ToHandler(HandlerId),
    /// No registered route has this path.
    NotFound,
    /// The path is registered, but not with this method. Policy choice:
    /// such a request is answered with a method-not-allowed outcome
    /// rather than being folded into not-found.
    MethodNotAllowed,
}

/// One entry of the route table.
#[derive(Clone, Debug, PartialEq, Eq)]
pub struct Route {
    pub method: Method,
    pub path: String,
    pub handler: HandlerId,
}

/// The mathematical image of one route table entry.
pub struct RouteModel {
    pub method: Method,
    pub path: Seq<char>,
    pub handler: HandlerId,
}

impl View for Route {
    type V = RouteModel;

    open spec fn view(&self) -> RouteModel {
        RouteModel { method: self.method, path: self.path@, handler: self.handler }
    }
}

/// True when entry `i` of `routes` matches both the method and the path.
pub open spec fn full_match_at(routes: Seq<RouteModel>, i: int, method: Method, path: Seq<char>) -> bool {
    &&& 0 <= i < routes.len()
    &&& routes[i].method == method
    &&& routes[i].path == path
}

/// True when some entry matches both the method and the path.
pub open spec fn has_full_match(routes: Seq<RouteModel>, method: Method, path: Seq<char>) -> bool {
    exists|i: int| full_match_at(routes, i, method, path)
}

/// True when some entry is registered under `path`, with any method.
pub open spec fn has_path_match(routes: Seq<RouteModel>, path: Seq<char>) -> bool {
    exists|i: int| 0 <= i < routes.len() && routes[i].path == path
}

/// What dispatch answers: the matched handler; method-not-allowed when
/// only the path is registered; not-found otherwise.
pub open spec fn spec_dispatch(routes: Seq<RouteModel>, method: Method, path: Seq<char>) -> Dispatch {
    if has_full_match(routes, method, path) {
        let i = choose|i: int| full_match_at(routes, i, method, path);
        Dispatch::ToHandler(routes[i].handler)
    } else if has_path_match(routes, path) {
        Dispatch::MethodNotAllowed
    } else {
        Dispatch::NotFound
    }
}

/// Dispatch outcomes, by meaning: a handler is answered exactly when
/// method and path both match some entry; method-not-allowed exactly when
/// only the path is registered; not-found exactly when the path is not
/// registered at all.
pub proof fn lemma_dispatch_meaning(routes: Seq<RouteModel>, method: Method, path: Seq<char>)
    ensures
        spec_dispatch(routes, method, path) is ToHandler <==> has_full_match(
            routes,
            method,
            path,
        ),
        spec_dispatch(routes, method, path) == Dispatch::MethodNotAllowed <==> (!has_full_match(
            routes,
            method,
            path,
        ) && has_path_match(routes, path)),
        spec_dispatch(routes, method, path) == Dispatch::NotFound <==> !has_path_match(
            routes,
            path,
        ),
{
    if has_full_match(routes, method, path) {
        let i = choose|i: int| full_match_at(routes, i, method, path);
        assert(0 <= i < routes.len() && routes[i].path == path);
        assert(has_path_match(routes, path));
    }
}

/// On the standard table, GET /health_check reaches the liveness handler
/// and POST /subscriptions reaches the subscription handler.
pub proof fn lemma_standard_dispatch()
    ensures
        spec_dispatch(spec_standard_routes(), Method::Get, "/health_check"@)
            == Dispatch::ToHandler(HandlerId::HealthCheck),
        spec_dispatch(spec_standard_routes(), Method::Post, "/subscriptions"@)
            == Dispatch::ToHandler(HandlerId::Subscribe),
{
    let routes = spec_standard_routes();
    assert(full_match_at(routes, 0, Method::Get, "/health_check"@));
    let i = choose|i: int| full_match_at(routes, i, Method::Get, "/health_check"@);
    // entry 1 is registered with POST, so the witness can only be entry 0
    assert(i == 0);
    assert(full_match_at(routes, 1, Method::Post, "/subscriptions"@));
    let j = choose|j: int| full_match_at(routes, j, Method::Post, "/subscriptions"@);
    assert(j == 1);
}

/// The static method+path -> handler mapping, fixed at construction and
/// never mutated afterward.
#[derive(Clone, Debug, PartialEq, Eq)]
pub struct RouteTable {
    pub routes: Vec<Route>,
}

/// The two entries this service registers.
pub open spec fn spec_standard_routes() -> Seq<RouteModel> {
    seq![
        RouteModel { method: Method::Get, path: "/health_check"@, handler: HandlerId::HealthCheck },
        RouteModel { method: Method::Post, path: "/subscriptions"@, handler: HandlerId::Subscribe },
    ]
}

impl RouteTable {
    /// The table's entries as mathematical values.
    pub open spec fn spec_routes(&self) -> Seq<RouteModel> {
        self.routes@.map_values(|r: Route| r@)
    }

    /// Well-formedness: keys are unique; no two entries share a
    /// method+path pair.
    pub open spec fn wf(&self) -> bool {
        forall|i: int, j: int|
            0 <= i < j < self.spec_routes().len() ==> !((#[trigger] self.spec_routes()[i]).method
                == (#[trigger] self.spec_routes()[j]).method && self.spec_routes()[i].path
                == self.spec_routes()[j].path)
    }

    /// Builds the fixed table: the liveness route and the subscription
    /// route. Registration happens exactly once, here.
    pub fn standard() -> (t: RouteTable)
        ensures
            t.wf(),
            t.spec_routes() == spec_standard_routes(),
    {
        let mut routes: Vec<Route> = Vec::new();
        routes.push(
            Route {
                method: Method::Get,
                path: "/health_check".to_owned(),
                handler: HandlerId::HealthCheck,
            },
        );
        routes.push(
            Route {
                method: Method::Post,
                path: "/subscriptions".to_owned(),
                handler: HandlerId::Subscribe,
            },
        );
        let t = RouteTable { routes };
        proof {
            assert(t.spec_routes() =~= spec_standard_routes());
        }
        t
    }

    /// Matches one request line against the table. Total: every request
    /// gets an answer, matched or not.
    pub fn dispatch(&self, method: Method, path: &String) -> (r: Dispatch)
        requires
            self.wf(),
        ensures
            r == spec_dispatch(self.spec_routes(), method, path@),
    {
        let n = self.routes.len();
        let mut path_matched = false;
        let mut i: usize = 0;
        while i < n
            invariant
                n == self.routes.len(),
                i <= n,
                self.wf(),
                forall|k: int| 0 <= k < i ==> !full_match_at(self.spec_routes(), k, method, path@),
                path_matched == exists|k: int|
                    0 <= k < i && (#[trigger] self.spec_routes()[k]).path == path@,
            decreases n - i,
        {
            let route = &self.routes[i];
            if route.path == *path {
                if route.method == method {
                    proof {
                        let routes = self.spec_routes();
                        assert(full_match_at(routes, i as int, method, path@));
                        let j = choose|j: int| full_match_at(routes, j, method, path@);
                        assert(routes[j].handler == route.handler) by {
                            if j != i as int {
                                if j < i as int {
                                    assert(!(routes[j].method == routes[i as int].method
                                        && routes[j].path == routes[i as int].path));
                                } else {
                                    assert(!(routes[i as int].method == routes[j].method
                                        && routes[i as int].path == routes[j].path));
                                }
                            }
                        }
                    }
                    return Dispatch::ToHandler(route.handler);
                }
                path_matched = true;
            }
            i += 1;
        }
        if path_matched {
            Dispatch::MethodNotAllowed
        } else {
            Dispatch::NotFound
        }
    }
}

} // verus!
