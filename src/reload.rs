use vstd::prelude::*;

verus! {

/// Decouples an outside "refresh now" trigger from the store's read path: the
/// trigger only sets a flag, and the next access consumes it.
pub struct ReloadCoordinator {
    pending: bool,
}

impl View for ReloadCoordinator {
    type V = bool;

    /// Whether a reload is pending.
    closed spec fn view(&self) -> bool {
        self.pending
    }
}

impl ReloadCoordinator {
    /// A coordinator with a reload pending, so that the first access loads.
    pub fn new() -> (r: ReloadCoordinator)
        ensures
            r@,
    {
        ReloadCoordinator { pending: true }
    }

    /// Asks for a reload on the next access.
    pub fn request_reload(&mut self)
        ensures
            final(self)@,
    {
        self.pending = true;
    }

    /// Reads and clears the flag in one step, telling whether a reload was
    /// pending.
    pub fn consume_reload_request(&mut self) -> (r: bool)
        ensures
            r == old(self)@,
            !final(self)@,
    {
        let r = self.pending;
        self.pending = false;
        r
    }
}

} // verus!
