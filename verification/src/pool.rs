//! Worker-pool configuration, reframed as an explicit value rather than
//! ambient global state: created when the process starts, read for
//! diagnostics, resized only by an explicit operation.
//!
//! The pool size is exposed upward for introspection and is not part of the
//! relay's correctness.  A resize must not be concurrent with an in-flight
//! dispatcher loop; exclusive ownership of the value enforces that here.

use vstd::prelude::*;

verus! {

/// The engine's worker-pool configuration: how many worker threads evaluate
/// engine work in parallel.
pub struct PoolConfig {
    threads: usize,
}

impl PoolConfig {
    /// The configured number of worker threads.
    pub closed spec fn thread_count(&self) -> int {
        self.threads as int
    }

    /// A pool always has at least one worker thread.
    pub closed spec fn wf(&self) -> bool {
        self.threads >= 1
    }

    /// Configuration for a pool of `threads` workers.
    pub fn new(threads: usize) -> (c: PoolConfig)
        requires
            threads >= 1,
        ensures
            c.wf(),
            c.thread_count() == threads,
    {
        PoolConfig { threads }
    }

    /// Read-only introspection of the current pool size.
    pub fn thread_pool_size(&self) -> (n: usize)
        requires
            self.wf(),
        ensures
            n == self.thread_count(),
            n >= 1,
    {
        self.threads
    }

    /// Explicit resize; never concurrent with a dispatcher loop, which
    /// exclusive ownership of the configuration already rules out.
    pub fn resize(&mut self, threads: usize)
        requires
            old(self).wf(),
            threads >= 1,
        ensures
            final(self).wf(),
            final(self).thread_count() == threads,
    {
        self.threads = threads;
    }
}

} // verus!
