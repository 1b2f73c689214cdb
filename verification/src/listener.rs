use vstd::prelude::*;

verus! {

/// What the bootstrap reads of an OS-level listener: the local port it
/// was bound to and whether it is still bound.
///
/// The caller owns the listener until it hands it to the bootstrap;
/// ownership then transfers to the produced handle. A socket that was
/// never bound, or was closed again, cannot be adopted.
#[derive(Clone, Copy, PartialEq, Eq, Structural, Debug)]
pub struct Listener {
    /// The local port the socket is bound to.
    pub port: u16,
    /// Whether the socket is currently bound and not yet accepting.
    pub bound: bool,
}

impl Listener {
    /// A listener can be adopted into a server handle exactly when it is
    /// still bound.
    pub open spec fn is_adoptable(&self) -> bool {
        self.bound
    }

    /// Whether this listener can be adopted into a server handle.
    pub fn adoptable(&self) -> (b: bool)
        ensures
            b == self.is_adoptable(),
    {
        self.bound
    }
}

} // verus!
