//! Ordered ingestion of a block chain into a height-indexed store, and what
//! a block explorer shows of it.
//!
//! A pool of fetch workers claims heights from a shared counter and fetches
//! the blocks concurrently; a single sequencer puts their batches back into
//! ascending order before they reach the store. The modules here hold the
//! decisions of that pipeline as plain state machines: the caller performs
//! the outside work (network, storage, timers) and reports back what happened.
//!
//! * [`claim`], [`worker`], [`sequencer`]: the parts of the catch-up pipeline.
//! * [`mempool`], [`monitor`]: what follows catch-up.
//! * [`indexer`]: the two indexer variants, the course of a run, the point queries.
//! * [`ordering`], [`pipeline`], [`backpressure`], [`convergence`]: what is
//!   proved of whole runs.
//! * [`chain`], [`api`], [`balances`], [`server`], [`server_primitives`],
//!   [`templating`]: the explorer's figures, lists and pages.

pub mod api;
pub mod backpressure;
pub mod balances;
pub mod chain;
pub mod claim;
pub mod convergence;
pub mod indexer;
pub mod mempool;
pub mod monitor;
pub mod ordering;
pub mod pipeline;
pub mod sequencer;
pub mod server;
pub mod server_primitives;
pub mod templating;
pub mod worker;
