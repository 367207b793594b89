use vstd::prelude::*;

verus! {

/// An error raised while installing a plan on a worker.
#[derive(Clone, Debug)]
pub enum BuildJobError {
    /// A violated invariant of the worker, such as a wrong number of event senders.
    InternalError(String),
    /// An error reported by the plan builder.
    UserError(String),
}

/// An error raised while a worker runs one step of its dataflow.
#[derive(Clone, Debug)]
pub enum JobExecError {
    /// An error of the dataflow or of its schedule.
    Schedule(String),
    /// An error of the graph store, surfaced through the read adapter.
    Store(String),
}

} // verus!
