use vstd::prelude::*;

verus! {

/// Records whether shutdown was requested; the request is raised once and
/// never withdrawn.
pub struct ShutdownCoordinator {
    requested: bool,
}

impl ShutdownCoordinator {
    pub closed spec fn view(&self) -> bool {
        self.requested
    }

    pub fn new() -> (r: ShutdownCoordinator)
        ensures
            !r.view(),
    {
        ShutdownCoordinator { requested: false }
    }

    pub fn is_requested(&self) -> (r: bool)
        ensures
            r == self.view(),
    {
        self.requested
    }

    /// Raises the request. Returns `true` only on the call that raised it, so
    /// the stop signal is sent once however often this is called.
    pub fn initiate_shutdown(&mut self) -> (first: bool)
        ensures
            final(self).view(),
            first == !old(self).view(),
    {
        let first = !self.requested;
        self.requested = true;
        first
    }
}

} // verus!
