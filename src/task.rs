use vstd::prelude::*;

use crate::errors::JobExecError;

verus! {

/// What a task tells the cooperative scheduler after one call.
#[derive(Clone, Copy, Debug, PartialEq, Eq, Structural)]
pub enum TaskState {
    /// The task has runnable work: call it again soon.
    Ready,
    /// The task waits for events: poll it with `check_ready`.
    NotReady,
    /// The task is done and will not be called again.
    Finished,
}

/// What the dataflow and its schedule answered during one `execute` step,
/// in the order the calls are made: `step`, then `check_finish`, then either
/// `close` (drained) or `is_idle` (still running).
#[derive(Debug)]
pub enum StepReport {
    /// `step` failed; nothing else was called.
    StepFailed(JobExecError),
    /// `step` succeeded and `check_finish` said every operator is drained;
    /// this is what `close` answered.
    Drained(Result<(), JobExecError>),
    /// `step` succeeded and the dataflow is not drained; this is what
    /// `is_idle` answered.
    Running(Result<bool, JobExecError>),
}

/// What the schedule and the dataflow answered during one `check_ready`
/// probe: `try_notify`, then `is_idle`.
#[derive(Debug)]
pub enum NotifyReport {
    /// `try_notify` failed; `is_idle` was not called.
    NotifyFailed(JobExecError),
    /// `try_notify` succeeded; this is what `is_idle` answered.
    Probed(Result<bool, JobExecError>),
}

/// The state of the dataflow a worker drives.
#[derive(Clone, Copy, Debug, PartialEq, Eq, Structural)]
pub enum WorkerTask {
    /// No plan is installed.
    Empty,
    /// A dataflow and its schedule are installed.
    Dataflow,
}

/// The state that a report of one `execute` step leads to.
pub open spec fn step_outcome(report: StepReport) -> Result<TaskState, JobExecError> {
    match report {
        StepReport::StepFailed(e) => Err(e),
        StepReport::Drained(Err(e)) => Err(e),
        StepReport::Drained(Ok(())) => Ok(TaskState::Finished),
        StepReport::Running(Err(e)) => Err(e),
        StepReport::Running(Ok(idle)) => Ok(if idle { TaskState::NotReady } else { TaskState::Ready }),
    }
}

/// The state that a report of one `check_ready` probe leads to.
pub open spec fn probe_outcome(report: NotifyReport) -> Result<TaskState, JobExecError> {
    match report {
        NotifyReport::NotifyFailed(e) => Err(e),
        NotifyReport::Probed(Err(e)) => Err(e),
        NotifyReport::Probed(Ok(idle)) => Ok(if idle { TaskState::NotReady } else { TaskState::Ready }),
    }
}

impl WorkerTask {
    /// The result of one cooperative step from this state.
    pub open spec fn execute_spec(self, report: StepReport) -> Result<TaskState, JobExecError> {
        match self {
            WorkerTask::Empty => Ok(TaskState::Finished),
            WorkerTask::Dataflow => step_outcome(report),
        }
    }

    /// The result of one readiness probe from this state.
    pub open spec fn check_ready_spec(self, report: NotifyReport) -> Result<TaskState, JobExecError> {
        match self {
            WorkerTask::Empty => Ok(TaskState::Finished),
            WorkerTask::Dataflow => probe_outcome(report),
        }
    }

    /// One cooperative step: an empty task is finished at once; otherwise the
    /// dataflow's answers decide the state, and any error is passed on.
    pub fn execute(&self, report: StepReport) -> (r: Result<TaskState, JobExecError>)
        ensures
            r == self.execute_spec(report),
    {
        match self {
            WorkerTask::Empty => Ok(TaskState::Finished),
            WorkerTask::Dataflow => match report {
                StepReport::StepFailed(e) => Err(e),
                StepReport::Drained(closed) => match closed {
                    Ok(()) => Ok(TaskState::Finished),
                    Err(e) => Err(e),
                },
                StepReport::Running(idle) => match idle {
                    Ok(true) => Ok(TaskState::NotReady),
                    Ok(false) => Ok(TaskState::Ready),
                    Err(e) => Err(e),
                },
            },
        }
    }

    /// A readiness probe: an empty task is finished; otherwise the state is
    /// `NotReady` when the dataflow is idle and `Ready` when it is not.
    pub fn check_ready(&self, report: NotifyReport) -> (r: Result<TaskState, JobExecError>)
        ensures
            r == self.check_ready_spec(report),
    {
        match self {
            WorkerTask::Empty => Ok(TaskState::Finished),
            WorkerTask::Dataflow => match report {
                NotifyReport::NotifyFailed(e) => Err(e),
                NotifyReport::Probed(Ok(true)) => Ok(TaskState::NotReady),
                NotifyReport::Probed(Ok(false)) => Ok(TaskState::Ready),
                NotifyReport::Probed(Err(e)) => Err(e),
            },
        }
    }
}

} // verus!
