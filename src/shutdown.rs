use std::sync::atomic::{AtomicBool, Ordering};
use vstd::prelude::*;
use crate::router::{route, route_spec, Route};

verus! {

/// The process-wide drain flag: false while running, true once shutdown has
/// been triggered, and never false again. Shared by reference with every
/// request task.
pub struct ShutdownCoordinator {
    draining: AtomicBool,
}

impl ShutdownCoordinator {
    /// A coordinator in the running state.
    pub fn new() -> (r: ShutdownCoordinator) {
        ShutdownCoordinator { draining: AtomicBool::new(false) }
    }

    /// Moves to draining. Idempotent: the flag is only ever set to true, and
    /// the result tells whether this call was the one that set it.
    pub fn initiate_shutdown(&self) -> (first: bool) {
        let was_draining = self.draining.swap(true, Ordering::AcqRel);
        !was_draining
    }

    /// Whether shutdown has been triggered.
    pub fn is_draining(&self) -> (r: bool) {
        self.draining.load(Ordering::Acquire)
    }

    /// Routes a request for `path`, reading the drain flag before anything
    /// else: the result is the routing rule applied to what the flag held.
    pub fn dispatch(&self, path: &str) -> (r: Route)
        ensures
            exists|draining: bool| r@ == route_spec(draining, path@),
    {
        let draining = self.is_draining();
        route(draining, path)
    }
}

} // verus!
