//! Core logic of a background maintenance job that keeps a shared pool of
//! pending orders in step with a blockchain node.
//!
//! The job subscribes to new block headers and, for each one, fetches a fresh
//! chain-state snapshot, synchronizes the order pool against it under
//! exclusive access, and reports metrics. The surrounding runtime performs the
//! I/O (transport connection, subscriptions, locking, metric sinks); this
//! crate holds the decisions the job makes and the lifecycle contract it
//! keeps: fail-fast bootstrap, one maintenance cycle per header event in
//! arrival order, transient fetch failures skipping a single cycle, and the
//! shared cancellation signal being set exactly once on every exit path.

pub mod events;
pub mod cycle;
pub mod job;
pub mod trace;
pub mod laws;
