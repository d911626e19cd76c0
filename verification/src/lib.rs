//! Bookkeeping core of a workflow worker.
//!
//! The worker polls a workflow service for workflow tasks and activity tasks,
//! hands activations to a language host and reports completions back. This
//! crate holds the part of that which decides: the run cache, the queue of
//! pending activations, per-run task tracking, and activity slot accounting.
//! Everything that suspends, talks to the network or drives the workflow state
//! machines is left to the caller, which hands results in as plain values.

pub mod abstractions;
pub mod durations;
pub mod keyed;
pub mod pending_activations;
pub mod protos;
pub mod protosext;
pub mod worker;
pub mod workflow;
