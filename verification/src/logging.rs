use vstd::prelude::*;

verus! {

/// One structured log entry emitted by the request-logging middleware.
/// Every entry carries the correlation identifier assigned to its request
/// at entry, so start and end can be paired after the fact.
#[derive(Clone, Copy, PartialEq, Eq, Structural, Debug)]
pub enum LogEvent {
    /// Emitted once when a request enters the pipeline.
    RequestStarted { correlation_id: u64 },
    /// Emitted once when the pipeline is done with the request, whether
    /// the handler succeeded or failed.
    RequestEnded { correlation_id: u64, status: u16 },
}

/// The middleware's source of correlation identifiers: a counter that
/// never hands out the same identifier twice.
pub struct IdSource {
    next: u64,
}

impl IdSource {
    /// The identifier the next request will be assigned.
    pub closed spec fn spec_next(&self) -> u64 {
        self.next
    }

    /// True while the source can still issue an identifier (machine
    /// limit of the counter).
    pub open spec fn can_issue(&self) -> bool {
        self.spec_next() < u64::MAX
    }

    /// A fresh source that has issued no identifier yet.
    pub fn new() -> (s: IdSource)
        ensures
            s.spec_next() == 0,
    {
        IdSource { next: 0 }
    }

    /// Assigns the next correlation identifier. Identifiers strictly
    /// increase, so no two requests ever share one.
    pub fn fresh(&mut self) -> (id: u64)
        requires
            old(self).can_issue(),
        ensures
            id == old(self).spec_next(),
            final(self).spec_next() == old(self).spec_next() + 1,
    {
        let id = self.next;
        self.next = self.next + 1;
        id
    }
}

} // verus!
