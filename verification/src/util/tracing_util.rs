//! Setting up the log output once and no more.
//!
//! A process may install its log subscriber only once. The library decides
//! when that is to happen; the program that holds the [`TracingSetup`] does
//! the installing.

use vstd::prelude::*;

verus! {

/// Remembers whether the log subscriber has been asked for.
#[derive(Debug)]
pub struct TracingSetup {
    requested: bool,
}

impl TracingSetup {
    /// Whether the subscriber has been asked for.
    pub closed spec fn requested(&self) -> bool {
        self.requested
    }

    /// A setup in which nothing has been asked for yet.
    pub fn new() -> (setup: TracingSetup)
        ensures
            !setup.requested(),
    {
        TracingSetup { requested: false }
    }
}

/// Says whether the caller is to install the log subscriber now. The first
/// call on a setup says yes, and every later call says no.
pub fn init_tracing_once(setup: &mut TracingSetup) -> (install_now: bool)
    ensures
        install_now == !old(setup).requested(),
        final(setup).requested(),
{
    let install_now: bool = !setup.requested;
    setup.requested = true;
    install_now
}

} // verus!
