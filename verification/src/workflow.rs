//! What the task manager needs to know about workflows: the commands the
//! language host sends back and the ways the state machines can fail.

use crate::protos::{EvictionReason, QueryResult};
use vstd::prelude::*;

pub mod workflow_tasks;

verus! {

/// The query id that marks a query as a legacy query.
pub const LEGACY_QUERY_ID: &'static str = "legacy_query";

/// Whether `id` is the legacy query id.
pub fn is_legacy_query_id(id: &String) -> (r: bool)
    ensures
        r == (id@ == LEGACY_QUERY_ID@),
{
    let legacy = LEGACY_QUERY_ID.to_owned();
    *id == legacy
}

/// A command produced by the language host in reply to an activation.
#[derive(Clone, Debug, PartialEq, Eq)]
pub enum WFCommand {
    /// The answer to a query. Never reaches the state machines.
    QueryResponse(QueryResult),
    /// Any command that drives the state machines, encoded.
    Other(Vec<u8>),
}

impl WFCommand {
    pub open spec fn is_query_response(self) -> bool {
        self is QueryResponse
    }

    pub open spec fn is_legacy_query_response(self) -> bool {
        self matches WFCommand::QueryResponse(qr) && qr.query_id@ == LEGACY_QUERY_ID@
    }
}

/// How the workflow state machines can fail.
#[derive(Clone, Debug, PartialEq, Eq)]
pub enum WFMachinesError {
    /// The machines disagreed with history.
    Nondeterminism(String),
    /// A protocol violation; unrecoverable for the run.
    Fatal(String),
    /// A transient failure, such as one to fetch history.
    Recoverable(String),
}

impl WFMachinesError {
    /// The reason to give when evicting a run because of this error. A
    /// failure that is not a disagreement with history counts as fatal for
    /// the run's cached state.
    pub open spec fn spec_evict_reason(&self) -> EvictionReason {
        match self {
            WFMachinesError::Nondeterminism(_) => EvictionReason::Nondeterminism,
            WFMachinesError::Fatal(_) => EvictionReason::Fatal,
            WFMachinesError::Recoverable(_) => EvictionReason::Fatal,
        }
    }

    /// The reason to give when evicting a run because of this error.
    pub fn evict_reason(&self) -> (r: EvictionReason)
        ensures
            r == self.spec_evict_reason(),
    {
        match self {
            WFMachinesError::Nondeterminism(_) => EvictionReason::Nondeterminism,
            WFMachinesError::Fatal(_) => EvictionReason::Fatal,
            WFMachinesError::Recoverable(_) => EvictionReason::Fatal,
        }
    }
}

} // verus!
