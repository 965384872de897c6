//! A callback relay: lets worker threads of a parallel query engine request
//! work from a single-threaded host runtime without ever touching that runtime
//! themselves.
//!
//! Worker threads build request envelopes and push them onto a relay channel;
//! a dispatcher loop, running only on the thread that owns the host runtime,
//! drains the channel, runs each host call, and writes the result into the
//! request's one-shot reply slot.  An execution entry point ties the two
//! together: it submits a query, services callbacks while the query runs, and
//! surfaces a single aggregated outcome.
//!
//! This crate verifies the relay's bookkeeping: every request is serviced
//! exactly once, each reply reaches exactly the request it was written for,
//! tearing the channel down leaves no request blocked forever, and a failure
//! in one branch never corrupts branches that already completed.  The host
//! runtime and the engine's worker pool are collaborators outside the model;
//! a driver performs their calls and feeds the results back in as events.

pub mod envelope;

pub mod relay;

pub mod dispatcher;

pub mod execution;

pub mod pool;
