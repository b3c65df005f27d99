//! Value types of the risk-oracle workflow surface.
//!
//! A workflow periodically gathers a risk figure from outside sources and
//! feeds it to the risk-score update operation. The orchestration itself is
//! an external collaborator; these are the plain carriers its requests and
//! answers travel in.

use vstd::prelude::*;

verus! {

/// Lifecycle state of a workflow.
#[derive(Debug, PartialEq, Eq)]
pub enum WorkflowStatus {
    Active,
    Paused,
    Completed,
    Failed,
}

/// A registered workflow, as the orchestrator reports it.
#[derive(Debug, PartialEq, Eq)]
pub struct ChainlinkWorkflow {
    pub id: String,
    pub name: String,
    pub status: WorkflowStatus,
    pub created_at: i64,
    pub updated_at: i64,
}

/// What starts a workflow run.
#[derive(Debug, PartialEq, Eq)]
pub enum TriggerConfig {
    /// On a fixed schedule.
    Cron { schedule: String },
    /// On an inbound call.
    Webhook { endpoint: String },
    /// On an event of a contract.
    Event { contract: String, event: String },
}

/// One step of a workflow.
#[derive(Debug, PartialEq, Eq)]
pub enum TaskConfig {
    /// Fetch from an HTTP source.
    Http { url: String, method: String, headers: Option<Vec<(String, String)>> },
    /// Aggregate earlier task outputs.
    Consensus { sources: Vec<String>, threshold: u32, aggregation: String },
    /// Invoke an operation of a contract.
    Contract { blockchain: String, contract_address: String, function: String, args: Vec<String> },
    /// Reshape a value.
    Transform { expression: String },
}

/// A workflow to register: a name, what triggers it, and its steps in order.
#[derive(Debug, PartialEq, Eq)]
pub struct WorkflowDefinition {
    pub name: String,
    pub trigger: TriggerConfig,
    pub tasks: Vec<TaskConfig>,
}

} // verus!
