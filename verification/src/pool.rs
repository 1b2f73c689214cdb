use vstd::prelude::*;

verus! {

/// A bounded database connection pool, described by what the bootstrap
/// wiring reads of it: a process-wide identity and a health flag.
///
/// The pool's internal checkout/checkin and exhaustion policy is an
/// external collaborator; the wiring passes the pool through unmodified.
/// Two values with the same `id` stand for the same underlying pool
/// instance.
#[derive(Clone, Copy, PartialEq, Eq, Structural, Debug)]
pub struct Pool {
    /// Identity of the underlying pool instance.
    pub id: u64,
    /// Whether the pool can currently hand out connections. The wiring
    /// never reads this flag: liveness must not depend on pool health.
    pub healthy: bool,
}

/// The shared, cheaply-cloneable wrapper put around the pool before it is
/// injected into request handling.
///
/// Cloning shares the same underlying instance instead of duplicating it,
/// so total live database connections stay bounded by the pool's own
/// configuration regardless of request concurrency.
#[derive(Clone, Copy, PartialEq, Eq, Structural, Debug)]
pub struct SharedPool {
    /// The wrapped pool instance.
    pub pool: Pool,
}

impl SharedPool {
    /// Identity of the wrapped pool instance.
    pub open spec fn spec_id(&self) -> u64 {
        self.pool.id
    }

    /// Takes ownership of the pool and wraps it for shared ownership.
    pub fn new(pool: Pool) -> (s: SharedPool)
        ensures
            s.pool == pool,
    {
        SharedPool { pool }
    }

    /// Hands out one more share of the same pool instance; never a copy of
    /// the pool itself.
    pub fn clone_ref(&self) -> (s: SharedPool)
        ensures
            s == *self,
    {
        SharedPool { pool: self.pool }
    }

    /// The identity of the instance every share observes.
    pub fn id(&self) -> (i: u64)
        ensures
            i == self.spec_id(),
    {
        self.pool.id
    }
}

} // verus!
