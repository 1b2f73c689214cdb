use vstd::prelude::*;

use crate::lifecycle::{ServerHandle, ServerState};
use crate::listener::Listener;
use crate::pool::{Pool, SharedPool};
use crate::routes::{spec_standard_routes, RouteTable};

verus! {

/// Why construction can fail. Construction errors are configuration
/// errors: they surface to the caller and no handle is produced.
#[derive(Clone, Copy, PartialEq, Eq, Structural, Debug)]
pub enum ConfigError {
    /// The listener could not be adopted: it is closed or was never
    /// bound.
    ListenerNotAdoptable,
}

/// What `run` promises of every handle it produces: the handle is
/// configured but not yet running, serves nothing yet, carries the two
/// standard routes, and shares exactly the pool instance the caller
/// supplied.
pub open spec fn freshly_configured(h: ServerHandle, listener: Listener, db_pool: Pool) -> bool {
    &&& h.state == ServerState::Configured
    &&& h.in_flight == 0
    &&& !h.draining
    &&& h.listener == listener
    &&& h.pool.pool == db_pool
    &&& h.routes.wf()
    &&& h.routes.spec_routes() == spec_standard_routes()
    &&& h.wf()
}

/// Builds a server handle around an already-bound listener and a
/// connection pool: wraps the pool for shared ownership, registers the
/// fixed routes with request-scoped logging composed around dispatch, and
/// adopts the listener.
///
/// Construction never starts the server and never blocks; it fails, with
/// a configuration error and no handle, exactly when the listener cannot
/// be adopted.
pub fn run(listener: Listener, db_pool: Pool) -> (r: Result<ServerHandle, ConfigError>)
    ensures
        r is Ok <==> listener.is_adoptable(),
        r matches Ok(h) ==> freshly_configured(h, listener, db_pool),
        r matches Err(e) ==> e == ConfigError::ListenerNotAdoptable,
{
    if !listener.adoptable() {
        return Err(ConfigError::ListenerNotAdoptable);
    }
    // Shared-state injection: one wrapper, every clone an O(1) share.
    let shared = SharedPool::new(db_pool);
    // Route registration happens exactly once, here.
    let routes = RouteTable::standard();
    Ok(
        ServerHandle {
            listener,
            pool: shared,
            routes,
            state: ServerState::Configured,
            draining: false,
            in_flight: 0,
        },
    )
}

} // verus!
