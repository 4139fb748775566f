//! The shutdown flag.

use vstd::prelude::*;

verus! {

/// Tells the subscriber whether to go on. It starts out running and can
/// only be switched off; nothing switches it back on.
pub struct Lifecycle {
    running: bool,
}

impl Lifecycle {
    /// Whether the subscriber is to go on.
    pub closed spec fn running(self) -> bool {
        self.running
    }

    /// The flag as it is after a shutdown request.
    pub closed spec fn stopped(self) -> Lifecycle {
        Lifecycle { running: false }
    }

    /// A flag that says "running".
    pub fn new() -> (flag: Lifecycle)
        ensures
            flag.running(),
    {
        Lifecycle { running: true }
    }

    /// Requests shutdown.
    pub fn shut_down(&mut self)
        ensures
            *final(self) == old(self).stopped(),
            !final(self).running(),
    {
        self.running = false;
    }

    /// Whether the subscriber is to go on.
    pub fn is_running(&self) -> (running: bool)
        ensures
            running == self.running(),
    {
        self.running
    }

    /// Shutdown is final: once requested, the flag says "stopped", and
    /// asking again changes nothing.
    pub proof fn lemma_shutdown_is_final(self)
        ensures
            !self.stopped().running(),
            self.stopped().stopped() == self.stopped(),
    {
    }
}

} // verus!
