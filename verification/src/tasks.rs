//! Task and output read-models: pure views over execution state owned by
//! the execution collaborators, reshaped for the wire.

use vstd::prelude::*;

use crate::model;
use crate::version::GraphVersion;

verus! {

/// Outcome of one executed task, wire form.
#[derive(Clone, Copy, Debug, PartialEq, Eq, Structural)]
pub enum TaskOutcome {
    Unknown,
    Success,
    Failure,
}

/// The wire form of an internal task outcome.
pub open spec fn outcome_to_wire(o: model::TaskOutcome) -> TaskOutcome {
    match o {
        model::TaskOutcome::Unknown => TaskOutcome::Unknown,
        model::TaskOutcome::Success => TaskOutcome::Success,
        model::TaskOutcome::Failure => TaskOutcome::Failure,
    }
}

impl TaskOutcome {
    /// Reshape an internal outcome for the wire; each internal variant has
    /// exactly one wire encoding.
    pub fn from_data_model(outcome: model::TaskOutcome) -> (r: TaskOutcome)
        ensures
            r == outcome_to_wire(outcome),
    {
        match outcome {
            model::TaskOutcome::Unknown => TaskOutcome::Unknown,
            model::TaskOutcome::Success => TaskOutcome::Success,
            model::TaskOutcome::Failure => TaskOutcome::Failure,
        }
    }
}

/// One task, wire form.
#[derive(Clone, Debug, PartialEq, Eq)]
pub struct Task {
    pub id: String,
    pub namespace: String,
    pub compute_fn: String,
    pub compute_graph: String,
    pub invocation_id: String,
    pub input_key: String,
    pub outcome: TaskOutcome,
    pub reducer_output_id: Option<String>,
    pub graph_version: GraphVersion,
}

impl Task {
    /// Reshape an internal task for the wire, field for field.
    pub fn from_data_model(task: model::Task) -> (r: Task)
        ensures
            r.id == task.id,
            r.namespace == task.namespace,
            r.compute_fn == task.compute_fn_name,
            r.compute_graph == task.compute_graph_name,
            r.invocation_id == task.invocation_id,
            r.input_key == task.input_node_output_key,
            r.outcome == outcome_to_wire(task.outcome),
            r.reducer_output_id == task.reducer_output_id,
            r.graph_version == task.graph_version,
    {
        Task {
            id: task.id,
            namespace: task.namespace,
            compute_fn: task.compute_fn_name,
            compute_graph: task.compute_graph_name,
            invocation_id: task.invocation_id,
            input_key: task.input_node_output_key,
            outcome: TaskOutcome::from_data_model(task.outcome),
            reducer_output_id: task.reducer_output_id,
            graph_version: task.graph_version,
        }
    }
}

/// A page of tasks.
#[derive(Clone, Debug, PartialEq, Eq)]
pub struct Tasks {
    pub tasks: Vec<Task>,
    pub cursor: Option<Vec<u8>>,
}

/// One function output, wire form.
#[derive(Clone, Debug, PartialEq, Eq)]
pub struct FnOutput {
    pub compute_fn: String,
    pub id: String,
}

impl FnOutput {
    /// Reshape an internal node output for the wire.
    pub fn from_data_model(output: model::NodeOutput) -> (r: FnOutput)
        ensures
            r.compute_fn == output.compute_fn_name,
            r.id == output.id,
    {
        FnOutput { compute_fn: output.compute_fn_name, id: output.id }
    }
}

/// A page of function outputs.
#[derive(Clone, Debug, PartialEq, Eq)]
pub struct FnOutputs {
    pub outputs: Vec<FnOutput>,
    pub cursor: Option<Vec<u8>>,
}

} // verus!
