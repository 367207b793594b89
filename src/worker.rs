use vstd::prelude::*;

use crate::errors::{BuildJobError, JobExecError};
use crate::peer::PeerGuard;
use crate::resource::{ResourceTable, WorkerContext};
use crate::task::{NotifyReport, StepReport, TaskState, WorkerTask};

verus! {

/// The configuration shared by all peers of one job.
#[derive(Clone, Debug)]
pub struct JobConf {
    pub job_id: u64,
    pub job_name: String,
    /// The number of peers that cooperate on the job.
    pub total_workers: u32,
    /// The most elements in one batch of the root output.
    pub batch_size: u32,
    /// The most batches of the root output in flight.
    pub batch_capacity: u32,
    /// The wall-clock limit in milliseconds from the worker's start; 0 means none.
    pub time_limit: u64,
}

/// The identity of one peer of a job.
#[derive(Clone, Copy, Debug, PartialEq, Eq, Structural)]
pub struct WorkerId {
    pub job_id: u64,
    pub index: u32,
    pub total_peers: u32,
}

impl WorkerId {
    pub open spec fn wf(&self) -> bool {
        self.index < self.total_peers
    }

    pub fn total_peers(&self) -> (r: u32)
        ensures
            r == self.total_peers,
    {
        self.total_peers
    }
}

/// How a worker closes its trace span.
#[derive(Clone, Copy, Debug, PartialEq, Eq, Structural)]
pub enum SpanEnd {
    /// Status error "Job is canceled".
    Canceled,
    /// Status error naming the execution error.
    Failed,
    /// Status ok, stamped with the milliseconds the job used.
    Completed { used_ms: u64 },
}

/// What the caller of a step must do on the worker's behalf, and the state to
/// report to the scheduler.
#[derive(Debug)]
pub struct Outcome {
    pub state: TaskState,
    /// Close the span this way, if set.
    pub span: Option<SpanEnd>,
    /// Set the job's shared cancel hook.
    pub set_cancel_hook: bool,
    /// Deliver this error to the result sink.
    pub error: Option<JobExecError>,
}

/// The event senders of a worker after its own sender was taken out.
pub struct EventSenders<S> {
    /// The senders the event emitter is built from.
    pub kept: Vec<S>,
    /// The worker's own sender, to be closed and discarded.
    pub own: Option<S>,
}

/// Whether a worker must stop: the time limit is set and spent, or the job's
/// cancel hook is set.
pub open spec fn cancelled(time_limit: u64, elapsed_ms: u64, hook: bool) -> bool {
    (time_limit > 0 && elapsed_ms >= time_limit) || hook
}

/// The outcome of a step that finds the job cancelled.
pub open spec fn cancel_outcome(r: Outcome) -> bool {
    &&& r.state == TaskState::Finished
    &&& r.span == Some(SpanEnd::Canceled)
    &&& r.set_cancel_hook
    &&& r.error.is_none()
}

/// An outcome that only reports `state`.
pub open spec fn plain_outcome(r: Outcome, state: TaskState) -> bool {
    &&& r.state == state
    &&& r.span.is_none()
    &&& !r.set_cancel_hook
    &&& r.error.is_none()
}

/// A sequence after its element at `i` is removed by moving the last element
/// into its place.
pub open spec fn swap_removed<S>(s: Seq<S>, i: int) -> Seq<S> {
    s.update(i, s.last()).drop_last()
}

/// The decimal digit of `d`, for `d < 10`.
pub open spec fn digit_char(d: nat) -> char {
    seq!['0', '1', '2', '3', '4', '5', '6', '7', '8', '9'][d as int]
}

/// The decimal writing of `n`, without leading zeros.
pub open spec fn decimal(n: nat) -> Seq<char>
    decreases n,
{
    if n < 10 {
        seq![digit_char(n)]
    } else {
        decimal(n / 10).push(digit_char(n % 10))
    }
}

/// The message of an event channel with the wrong number of senders.
pub open spec fn sender_count_text(senders: nat, total_peers: nat) -> Seq<char> {
    "Incorrect number of senders, senders size: "@ + decimal(senders) + ", total_peers: "@ + decimal(
        total_peers,
    ) + ";"@
}

/// The message of an event channel whose index is not 0.
pub open spec fn channel_index_text() -> Seq<char> {
    "Event channel index must be 0"@
}

/// Relies on `format!`, which writes each integer in decimal without
/// leading zeros, and the literal parts as they are.
#[verifier::external_body]
fn sender_count_message(senders: usize, total_peers: u32) -> (r: String)
    ensures
        r@ == sender_count_text(senders as nat, total_peers as nat),
{
    format!("Incorrect number of senders, senders size: {}, total_peers: {};", senders, total_peers)
}

/// What one step of a worker that has not finished does, given the task's
/// report: `w0`/`g0` before, `w1`/`g1` after, `r` the outcome.
pub open spec fn step_done<R>(
    w0: Worker<R>,
    w1: Worker<R>,
    g0: PeerGuard,
    g1: PeerGuard,
    report: StepReport,
    elapsed_ms: u64,
    r: Outcome,
) -> bool {
    &&& w1.task_spec() == w0.task_spec()
    &&& w1.conf_spec() == w0.conf_spec()
    &&& w1.id_spec() == w0.id_spec()
    &&& w1.resources_spec() == w0.resources_spec()
    &&& w1.keyed_resources_spec() == w0.keyed_resources_spec()
    &&& w1.wf() == w0.wf()
    &&& match w0.task_spec().execute_spec(report) {
        Ok(TaskState::Finished) => {
            &&& w1.finished()
            &&& g1.live_spec() == g0.live_spec() - 1
            &&& r.state == (if g0.live_spec() == 1 {
                TaskState::Finished
            } else {
                TaskState::NotReady
            })
            &&& r.span == Some(SpanEnd::Completed { used_ms: elapsed_ms })
            &&& !r.set_cancel_hook
            &&& r.error.is_none()
        },
        Ok(s) => {
            &&& w1.finished() == w0.finished()
            &&& g1 == g0
            &&& plain_outcome(r, s)
        },
        Err(e) => {
            &&& w1.finished() == w0.finished()
            &&& g1 == g0
            &&& r.state == TaskState::Finished
            &&& r.span == Some(SpanEnd::Failed)
            &&& !r.set_cancel_hook
            &&& r.error == Some(e)
        },
    }
}

/// What a readiness probe of the task gives, from its report.
pub open spec fn probe_done(task: WorkerTask, report: NotifyReport, r: Outcome) -> bool {
    match task.check_ready_spec(report) {
        Ok(s) => plain_outcome(r, s),
        Err(e) => r.state == TaskState::Finished && r.span.is_none() && !r.set_cancel_hook
            && r.error == Some(e),
    }
}

/// One peer of a job: its identity, the dataflow it drives, and the resources
/// its operators reach while it runs.
pub struct Worker<R> {
    conf: JobConf,
    id: WorkerId,
    task: WorkerTask,
    is_finished: bool,
    resources: ResourceTable<R>,
    keyed_resources: ResourceTable<R>,
}

impl<R> Worker<R> {
    pub closed spec fn conf_spec(&self) -> JobConf {
        self.conf
    }

    pub closed spec fn id_spec(&self) -> WorkerId {
        self.id
    }

    pub closed spec fn task_spec(&self) -> WorkerTask {
        self.task
    }

    /// Whether the worker has finished its dataflow and counted itself out of
    /// the peer guard.
    pub closed spec fn finished(&self) -> bool {
        self.is_finished
    }

    pub closed spec fn resources_spec(&self) -> Seq<(Seq<char>, R)> {
        self.resources@
    }

    pub closed spec fn keyed_resources_spec(&self) -> Seq<(Seq<char>, R)> {
        self.keyed_resources@
    }

    pub closed spec fn wf(&self) -> bool {
        self.resources.wf() && self.keyed_resources.wf()
    }

    /// Builds a worker and counts it in the peer guard; the flag is true when
    /// it is the job's first live peer, which registers the job with the
    /// memory accountant.
    pub fn new(conf: JobConf, id: WorkerId, peer_guard: &mut PeerGuard) -> (r: (Self, bool))
        requires
            old(peer_guard).live_spec() < usize::MAX,
        ensures
            final(peer_guard).live_spec() == old(peer_guard).live_spec() + 1,
            r.1 == (old(peer_guard).live_spec() == 0),
            r.0.conf_spec() == conf,
            r.0.id_spec() == id,
            r.0.task_spec() == WorkerTask::Empty,
            !r.0.finished(),
            r.0.resources_spec().len() == 0,
            r.0.keyed_resources_spec().len() == 0,
            r.0.wf(),
    {
        let first = peer_guard.register();
        let worker = Worker {
            conf,
            id,
            task: WorkerTask::Empty,
            is_finished: false,
            resources: ResourceTable::new(),
            keyed_resources: ResourceTable::new(),
        };
        (worker, first)
    }

    pub fn conf(&self) -> (r: &JobConf)
        ensures
            *r == self.conf_spec(),
    {
        &self.conf
    }

    pub fn id(&self) -> (r: WorkerId)
        ensures
            r == self.id_spec(),
    {
        self.id
    }

    pub fn is_finished(&self) -> (r: bool)
        ensures
            r == self.finished(),
    {
        self.is_finished
    }

    pub fn task(&self) -> (r: WorkerTask)
        ensures
            r == self.task_spec(),
    {
        self.task
    }

    /// Checks the job's event channel and takes the worker's own sender out of
    /// it. The channel must have index 0; with more than one worker it must
    /// hold one sender per peer and one more, and the sender at the worker's
    /// index is removed, the last one taking its place.
    pub fn event_senders<S>(&self, channel_index: u64, senders: Vec<S>) -> (r: Result<
        EventSenders<S>,
        BuildJobError,
    >)
        requires
            self.id_spec().wf(),
        ensures
            channel_index != 0 ==> (r matches Err(BuildJobError::InternalError(m)) && m@
                == channel_index_text()),
            channel_index == 0 && self.conf_spec().total_workers <= 1 ==> (r matches Ok(es)
                && es.kept@ == senders@ && es.own.is_none()),
            channel_index == 0 && self.conf_spec().total_workers > 1 && senders@.len()
                != self.id_spec().total_peers + 1 ==> (r matches Err(BuildJobError::InternalError(m))
                && m@ == sender_count_text(senders@.len(), self.id_spec().total_peers as nat)),
            channel_index == 0 && self.conf_spec().total_workers > 1 && senders@.len()
                == self.id_spec().total_peers + 1 ==> (r matches Ok(es)
                && es.kept@ == swap_removed(senders@, self.id_spec().index as int)
                && es.own == Some(senders@[self.id_spec().index as int])
                && es.kept@.len() == self.id_spec().total_peers
                && (senders@.no_duplicates() ==> !es.kept@.contains(senders@[self.id_spec().index as int]))),
    {
        if channel_index != 0 {
            let msg = "Event channel index must be 0".to_owned();
            return Err(BuildJobError::InternalError(msg));
        }
        let mut tx = senders;
        if self.conf.total_workers > 1 {
            if tx.len() as u64 != self.id.total_peers() as u64 + 1 {
                return Err(
                    BuildJobError::InternalError(sender_count_message(tx.len(), self.id.total_peers())),
                );
            }
            let ghost before = tx@;
            let own = tx.swap_remove(self.id.index as usize);
            proof {
                lemma_swap_removed_drops(before, self.id.index as int);
            }
            Ok(EventSenders { kept: tx, own: Some(own) })
        } else {
            Ok(EventSenders { kept: tx, own: None })
        }
    }

    /// Installs a plan. The job's event channel is checked and the worker's own
    /// sender taken out (see `event_senders`); `build` then gets the senders,
    /// closes the worker's own, wires the plan and builds the dataflow. On
    /// success the worker drives that dataflow from now on; on any failure it
    /// stays as it was and the error is returned.
    pub fn dataflow<S, F>(&mut self, channel_index: u64, senders: Vec<S>, build: F) -> (r: Result<
        (),
        BuildJobError,
    >) where F: FnOnce(EventSenders<S>) -> Result<(), BuildJobError>
        requires
            old(self).id_spec().wf(),
            forall|es: EventSenders<S>| build.requires((es,)),
        ensures
            final(self).finished() == old(self).finished(),
            final(self).conf_spec() == old(self).conf_spec(),
            final(self).id_spec() == old(self).id_spec(),
            final(self).resources_spec() == old(self).resources_spec(),
            final(self).keyed_resources_spec() == old(self).keyed_resources_spec(),
            final(self).wf() == old(self).wf(),
            r is Err ==> final(self).task_spec() == old(self).task_spec(),
            r is Ok ==> final(self).task_spec() == WorkerTask::Dataflow,
            channel_index != 0 ==> (r matches Err(BuildJobError::InternalError(m)) && m@
                == channel_index_text()),
            channel_index == 0 && old(self).conf_spec().total_workers > 1 && senders@.len()
                != old(self).id_spec().total_peers + 1 ==> (r matches Err(BuildJobError::InternalError(m))
                && m@ == sender_count_text(senders@.len(), old(self).id_spec().total_peers as nat)),
            channel_index == 0 && old(self).conf_spec().total_workers <= 1 ==> exists|es: EventSenders<S>|
                es.kept@ == senders@ && es.own.is_none() && #[trigger] build.ensures((es,), r),
            channel_index == 0 && old(self).conf_spec().total_workers > 1 && senders@.len()
                == old(self).id_spec().total_peers + 1 ==> exists|es: EventSenders<S>|
                es.kept@ == swap_removed(senders@, old(self).id_spec().index as int)
                && es.own == Some(senders@[old(self).id_spec().index as int])
                && es.kept@.len() == old(self).id_spec().total_peers
                && (senders@.no_duplicates() ==> !es.kept@.contains(senders@[old(self).id_spec().index as int]))
                && #[trigger] build.ensures((es,), r),
    {
        let es = self.event_senders(channel_index, senders)?;
        let ghost handed = es;
        let built = build(es);
        let r = self.set_task(built);
        assert(build.ensures((handed,), r));
        r
    }

    fn set_task(&mut self, built: Result<(), BuildJobError>) -> (r: Result<(), BuildJobError>)
        ensures
            r == built,
            built is Ok ==> r is Ok && final(self).task_spec() == WorkerTask::Dataflow,
            built is Err ==> r == built && final(self).task_spec() == old(self).task_spec(),
            final(self).finished() == old(self).finished(),
            final(self).conf_spec() == old(self).conf_spec(),
            final(self).id_spec() == old(self).id_spec(),
            final(self).resources_spec() == old(self).resources_spec(),
            final(self).keyed_resources_spec() == old(self).keyed_resources_spec(),
            final(self).wf() == old(self).wf(),
    {
        match built {
            Ok(u) => {
                self.task = WorkerTask::Dataflow;
                Ok(u)
            },
            Err(e) => Err(e),
        }
    }

    /// Adds a typed resource, keyed by the name of its type.
    pub fn add_resource(&mut self, type_key: String, resource: R)
        requires
            old(self).wf(),
        ensures
            final(self).wf(),
            forall|j: int|
                0 <= j < old(self).resources_spec().len() && old(self).resources_spec()[j].0
                    == type_key@ ==> final(self).resources_spec() == old(
                    self,
                ).resources_spec().update(j, (type_key@, resource)),
            (forall|j: int|
                0 <= j < old(self).resources_spec().len() ==> old(self).resources_spec()[j].0
                    != type_key@) ==> final(self).resources_spec() == old(
                self,
            ).resources_spec().push((type_key@, resource)),
            final(self).keyed_resources_spec() == old(self).keyed_resources_spec(),
            final(self).task_spec() == old(self).task_spec(),
            final(self).finished() == old(self).finished(),
    {
        self.resources.insert(type_key, resource);
    }

    /// Adds a resource under a key of the user's choice.
    pub fn add_resource_with_key(&mut self, key: String, resource: R)
        requires
            old(self).wf(),
        ensures
            final(self).wf(),
            forall|j: int|
                0 <= j < old(self).keyed_resources_spec().len()
                    && old(self).keyed_resources_spec()[j].0 == key@
                    ==> final(self).keyed_resources_spec() == old(
                    self,
                ).keyed_resources_spec().update(j, (key@, resource)),
            (forall|j: int|
                0 <= j < old(self).keyed_resources_spec().len()
                    ==> old(self).keyed_resources_spec()[j].0 != key@)
                ==> final(self).keyed_resources_spec() == old(
                self,
            ).keyed_resources_spec().push((key@, resource)),
            final(self).resources_spec() == old(self).resources_spec(),
            final(self).task_spec() == old(self).task_spec(),
            final(self).finished() == old(self).finished(),
    {
        self.keyed_resources.insert(key, resource);
    }

    /// Whether the worker must stop.
    pub fn check_cancel(&self, elapsed_ms: u64, cancel_hook: bool) -> (r: bool)
        ensures
            r == cancelled(self.conf_spec().time_limit, elapsed_ms, cancel_hook),
    {
        if self.conf.time_limit > 0 {
            if elapsed_ms >= self.conf.time_limit {
                return true;
            }
        }
        cancel_hook
    }

    fn begin_execute(&self, elapsed_ms: u64, cancel_hook: bool) -> (r: Option<Outcome>)
        ensures
            r is Some == cancelled(self.conf_spec().time_limit, elapsed_ms, cancel_hook),
            r matches Some(o) ==> cancel_outcome(o),
            cancel_hook ==> (r matches Some(o) && o.state == TaskState::Finished),
    {
        if self.check_cancel(elapsed_ms, cancel_hook) {
            Some(
                Outcome {
                    state: TaskState::Finished,
                    span: Some(SpanEnd::Canceled),
                    set_cancel_hook: true,
                    error: None,
                },
            )
        } else {
            None
        }
    }

    /// One scheduler step, in two calls. First call it with no report: when
    /// the job is cancelled the step ends there (the span is closed as
    /// canceled, the hook is set for all peers and the worker reports
    /// `Finished`; it is counted out when dropped); otherwise it returns
    /// `None` and the caller runs the task. Then call it again with the task's
    /// report. When the task finishes, the worker closes its span as
    /// completed, counts itself out of the peer guard, and reports `Finished`
    /// only if it was the last live peer (`NotReady` otherwise, so that it is
    /// polled until all peers are done). A task error closes the span as
    /// failed, goes to the sink, and ends the worker without counting it out.
    /// Other states pass through.
    pub fn execute(
        &mut self,
        peer_guard: &mut PeerGuard,
        elapsed_ms: u64,
        cancel_hook: bool,
        report: Option<StepReport>,
    ) -> (r: Option<Outcome>)
        requires
            !cancelled(old(self).conf_spec().time_limit, elapsed_ms, cancel_hook) && report is Some
                ==> !old(self).finished() && old(peer_guard).live_spec() > 0,
        ensures
            accounted_change(*old(self), *final(self), *old(peer_guard), *final(peer_guard)),
            cancelled(old(self).conf_spec().time_limit, elapsed_ms, cancel_hook) ==> (r matches Some(o)
                && cancel_outcome(o)),
            cancel_hook ==> (r matches Some(o) && o.state == TaskState::Finished),
            cancelled(old(self).conf_spec().time_limit, elapsed_ms, cancel_hook) || report is None
                ==> *final(self) == *old(self) && *final(peer_guard) == *old(peer_guard),
            !cancelled(old(self).conf_spec().time_limit, elapsed_ms, cancel_hook) && report is None
                ==> r is None,
            !cancelled(old(self).conf_spec().time_limit, elapsed_ms, cancel_hook) ==> match report {
                Some(rep) => r matches Some(o) && step_done(
                    *old(self),
                    *final(self),
                    *old(peer_guard),
                    *final(peer_guard),
                    rep,
                    elapsed_ms,
                    o,
                ),
                None => true,
            },
    {
        if let Some(o) = self.begin_execute(elapsed_ms, cancel_hook) {
            return Some(o);
        }
        match report {
            Some(rep) => Some(self.finish_step(peer_guard, rep, elapsed_ms)),
            None => None,
        }
    }

    fn finish_step(&mut self, peer_guard: &mut PeerGuard, report: StepReport, elapsed_ms: u64) -> (r:
        Outcome)
        requires
            !old(self).finished(),
            old(peer_guard).live_spec() > 0,
        ensures
            final(self).task_spec() == old(self).task_spec(),
            final(self).conf_spec() == old(self).conf_spec(),
            final(self).id_spec() == old(self).id_spec(),
            final(self).resources_spec() == old(self).resources_spec(),
            final(self).keyed_resources_spec() == old(self).keyed_resources_spec(),
            final(self).wf() == old(self).wf(),
            step_done(*old(self), *final(self), *old(peer_guard), *final(peer_guard), report, elapsed_ms, r),
    {
        match self.task.execute(report) {
            Ok(state) => {
                if state == TaskState::Finished {
                    self.is_finished = true;
                    let last = peer_guard.complete();
                    Outcome {
                        state: if last {
                            TaskState::Finished
                        } else {
                            TaskState::NotReady
                        },
                        span: Some(SpanEnd::Completed { used_ms: elapsed_ms }),
                        set_cancel_hook: false,
                        error: None,
                    }
                } else {
                    Outcome { state, span: None, set_cancel_hook: false, error: None }
                }
            },
            Err(e) => Outcome {
                state: TaskState::Finished,
                span: Some(SpanEnd::Failed),
                set_cancel_hook: false,
                error: Some(e),
            },
        }
    }

    fn begin_check_ready(&self, live_peers: usize, elapsed_ms: u64, cancel_hook: bool) -> (r:
        Option<Outcome>)
        ensures
            self.finished() && live_peers == 0 ==> (r matches Some(o) && plain_outcome(
                o,
                TaskState::Finished,
            )),
            !(self.finished() && live_peers == 0) && cancelled(
                self.conf_spec().time_limit,
                elapsed_ms,
                cancel_hook,
            ) ==> (r matches Some(o) && o.state == TaskState::Finished && o.set_cancel_hook
                && o.span.is_none() && o.error.is_none()),
            !cancelled(self.conf_spec().time_limit, elapsed_ms, cancel_hook) && !self.finished()
                ==> r is None,
            !cancelled(self.conf_spec().time_limit, elapsed_ms, cancel_hook) && self.finished()
                && live_peers > 0 ==> (r matches Some(o) && plain_outcome(o, TaskState::NotReady)),
            cancel_hook ==> (r matches Some(o) && o.state == TaskState::Finished),
    {
        if self.is_finished && live_peers == 0 {
            return Some(
                Outcome { state: TaskState::Finished, span: None, set_cancel_hook: false, error: None },
            );
        }
        if self.check_cancel(elapsed_ms, cancel_hook) {
            return Some(
                Outcome { state: TaskState::Finished, span: None, set_cancel_hook: true, error: None },
            );
        }
        if !self.is_finished {
            None
        } else {
            Some(
                Outcome {
                    state: TaskState::NotReady,
                    span: None,
                    set_cancel_hook: false,
                    error: None,
                },
            )
        }
    }

    /// A readiness probe, in up to two calls. A finished worker reports
    /// `Finished` once no peer is live; a cancelled one sets the hook and
    /// reports `Finished`; a finished one with live peers reports `NotReady`.
    /// Otherwise the task must be probed: called with no report, this returns
    /// `None`; called with the task's report, it gives the task's state, or
    /// `Finished` with the error handed to the sink.
    pub fn check_ready(
        &self,
        live_peers: usize,
        elapsed_ms: u64,
        cancel_hook: bool,
        report: Option<NotifyReport>,
    ) -> (r: Option<Outcome>)
        ensures
            self.finished() && live_peers == 0 ==> (r matches Some(o) && plain_outcome(
                o,
                TaskState::Finished,
            )),
            !(self.finished() && live_peers == 0) && cancelled(
                self.conf_spec().time_limit,
                elapsed_ms,
                cancel_hook,
            ) ==> (r matches Some(o) && o.state == TaskState::Finished && o.set_cancel_hook
                && o.span.is_none() && o.error.is_none()),
            !cancelled(self.conf_spec().time_limit, elapsed_ms, cancel_hook) && self.finished()
                && live_peers > 0 ==> (r matches Some(o) && plain_outcome(o, TaskState::NotReady)),
            cancel_hook ==> (r matches Some(o) && o.state == TaskState::Finished),
            !cancelled(self.conf_spec().time_limit, elapsed_ms, cancel_hook) && !self.finished()
                ==> match report {
                None => r is None,
                Some(rep) => r matches Some(o) && probe_done(self.task_spec(), rep, o),
            },
    {
        if let Some(o) = self.begin_check_ready(live_peers, elapsed_ms, cancel_hook) {
            return Some(o);
        }
        match report {
            Some(rep) => Some(self.probe_task(rep)),
            None => None,
        }
    }

    fn probe_task(&self, report: NotifyReport) -> (r: Outcome)
        ensures
            probe_done(self.task_spec(), report, r),
    {
        match self.task.check_ready(report) {
            Ok(state) => Outcome { state, span: None, set_cancel_hook: false, error: None },
            Err(e) => Outcome {
                state: TaskState::Finished,
                span: None,
                set_cancel_hook: false,
                error: Some(e),
            },
        }
    }

    /// Moves the worker's resources into the ambient slots for one step.
    pub fn enter_scope(
        &mut self,
        slot: &mut ResourceTable<R>,
        key_slot: &mut ResourceTable<R>,
    ) -> (r: WorkerContext)
        requires
            old(self).resources_spec().len() > 0 ==> old(slot)@.len() == 0,
            old(self).keyed_resources_spec().len() > 0 ==> old(key_slot)@.len() == 0,
        ensures
            r.resource == (old(self).resources_spec().len() > 0),
            r.keyed_resources == (old(self).keyed_resources_spec().len() > 0),
            r.resource ==> final(slot)@ == old(self).resources_spec()
                && final(self).resources_spec().len() == 0,
            !r.resource ==> *final(slot) == *old(slot) && final(self).resources_spec() == old(
                self,
            ).resources_spec(),
            r.keyed_resources ==> final(key_slot)@ == old(self).keyed_resources_spec()
                && final(self).keyed_resources_spec().len() == 0,
            !r.keyed_resources ==> *final(key_slot) == *old(key_slot)
                && final(self).keyed_resources_spec() == old(self).keyed_resources_spec(),
            final(self).task_spec() == old(self).task_spec(),
            final(self).finished() == old(self).finished(),
            final(self).conf_spec() == old(self).conf_spec(),
            final(self).id_spec() == old(self).id_spec(),
    {
        WorkerContext::new(&mut self.resources, &mut self.keyed_resources, slot, key_slot)
    }

    /// Takes the worker's resources back from the ambient slots after a step.
    pub fn exit_scope(
        &mut self,
        ctx: WorkerContext,
        slot: &mut ResourceTable<R>,
        key_slot: &mut ResourceTable<R>,
    )
        requires
            old(slot).wf(),
            old(key_slot).wf(),
            old(self).wf(),
        ensures
            ctx.resource ==> final(self).resources_spec() == old(slot)@ && final(slot)@.len() == 0,
            !ctx.resource ==> *final(slot) == *old(slot) && final(self).resources_spec() == old(
                self,
            ).resources_spec(),
            ctx.keyed_resources ==> final(self).keyed_resources_spec() == old(key_slot)@
                && final(key_slot)@.len() == 0,
            !ctx.keyed_resources ==> *final(key_slot) == *old(key_slot)
                && final(self).keyed_resources_spec() == old(self).keyed_resources_spec(),
            final(self).wf(),
            final(self).task_spec() == old(self).task_spec(),
            final(self).finished() == old(self).finished(),
            final(self).conf_spec() == old(self).conf_spec(),
            final(self).id_spec() == old(self).id_spec(),
    {
        ctx.exit(&mut self.resources, &mut self.keyed_resources, slot, key_slot);
    }

    /// The accounting when the worker is dropped: a worker that has not counted
    /// itself out does so now; the result tells whether no peer is live any
    /// more, which is when the job is removed from the memory accountant.
    pub fn release(&mut self, peer_guard: &mut PeerGuard) -> (r: bool)
        requires
            !old(self).finished() ==> old(peer_guard).live_spec() > 0,
        ensures
            accounted_change(*old(self), *final(self), *old(peer_guard), *final(peer_guard)),
            final(self).finished(),
            !old(self).finished() ==> final(peer_guard).live_spec() == old(peer_guard).live_spec()
                - 1,
            old(self).finished() ==> *final(peer_guard) == *old(peer_guard),
            r == (final(peer_guard).live_spec() == 0),
    {
        if !self.is_finished {
            self.is_finished = true;
            peer_guard.complete();
        }
        peer_guard.live() == 0
    }
}

/// The number of workers of a job's cohort that have not finished.
pub open spec fn unfinished<R>(ws: Seq<Worker<R>>) -> nat
    decreases ws.len(),
{
    if ws.len() == 0 {
        0
    } else {
        unfinished(ws.drop_last()) + if ws.last().finished() {
            0nat
        } else {
            1nat
        }
    }
}

/// How one call may change a worker and its job's peer guard: the guard
/// drops by one exactly when the worker turns finished, and is otherwise left
/// alone; a finished worker stays finished.
pub open spec fn accounted_change<R>(w0: Worker<R>, w1: Worker<R>, g0: PeerGuard, g1: PeerGuard) -> bool {
    ||| w0.finished() == w1.finished() && g1.live_spec() == g0.live_spec()
    ||| !w0.finished() && w1.finished() && g1.live_spec() == g0.live_spec() - 1
}

proof fn lemma_unfinished_update<R>(ws: Seq<Worker<R>>, i: int, w: Worker<R>)
    requires
        0 <= i < ws.len(),
    ensures
        unfinished(ws.update(i, w)) as int == unfinished(ws) as int - (if ws[i].finished() {
            0int
        } else {
            1int
        }) + (if w.finished() {
            0int
        } else {
            1int
        }),
    decreases ws.len(),
{
    let u = ws.update(i, w);
    if i == ws.len() - 1 {
        assert(u.drop_last() =~= ws.drop_last());
    } else {
        lemma_unfinished_update(ws.drop_last(), i, w);
        assert(u.drop_last() =~= ws.drop_last().update(i, w));
    }
}

proof fn lemma_unfinished_counts<R>(ws: Seq<Worker<R>>, i: int, j: int)
    requires
        0 <= i < ws.len(),
        0 <= j < ws.len(),
        !ws[i].finished(),
        !ws[j].finished(),
    ensures
        unfinished(ws) >= 1,
        i != j ==> unfinished(ws) >= 2,
    decreases ws.len(),
{
    let n = ws.len() - 1;
    if i == n && j == n {
    } else if i == n {
        lemma_unfinished_counts(ws.drop_last(), j, j);
    } else if j == n {
        lemma_unfinished_counts(ws.drop_last(), i, i);
    } else {
        lemma_unfinished_counts(ws.drop_last(), i, j);
    }
}

/// Peer-count conservation. Let a job's guard count the workers of its
/// cohort that have not finished. Building one more worker keeps that true,
/// and so does every call that changes a worker as `accounted_change` says
/// (`execute` and `release` do; the others leave the guard and the flag
/// alone). A worker that counts itself out finds the guard above zero, so
/// the guard never goes below zero, and once every worker has finished it
/// is zero and no call can lower it again.
pub proof fn lemma_guard_counts_unfinished<R>(
    ws: Seq<Worker<R>>,
    i: int,
    w1: Worker<R>,
    g0: PeerGuard,
    g1: PeerGuard,
)
    requires
        unfinished(ws) == g0.live_spec(),
        0 <= i < ws.len(),
        accounted_change(ws[i], w1, g0, g1),
    ensures
        unfinished(ws.update(i, w1)) == g1.live_spec(),
        !ws[i].finished() ==> g0.live_spec() > 0,
        (forall|j: int| 0 <= j < ws.len() ==> #[trigger] ws[j].finished()) ==> g0.live_spec() == 0
            && g1.live_spec() == 0,
{
    lemma_unfinished_update(ws, i, w1);
    if !ws[i].finished() {
        lemma_unfinished_counts(ws, i, i);
    }
    if forall|j: int| 0 <= j < ws.len() ==> #[trigger] ws[j].finished() {
        assert(ws[i].finished());
        lemma_all_finished(ws);
    }
}

proof fn lemma_all_finished<R>(ws: Seq<Worker<R>>)
    requires
        forall|j: int| 0 <= j < ws.len() ==> #[trigger] ws[j].finished(),
    ensures
        unfinished(ws) == 0,
    decreases ws.len(),
{
    if ws.len() > 0 {
        assert(ws.last().finished());
        assert forall|j: int| 0 <= j < ws.drop_last().len() implies #[trigger] ws.drop_last()[j].finished() by {
            assert(ws.drop_last()[j] == ws[j]);
        }
        lemma_all_finished(ws.drop_last());
    }
}

/// A worker joining the cohort: the guard still counts the unfinished ones.
pub proof fn lemma_guard_counts_new_peer<R>(ws: Seq<Worker<R>>, w: Worker<R>, g0: PeerGuard, g1: PeerGuard)
    requires
        unfinished(ws) == g0.live_spec(),
        g1.live_spec() == g0.live_spec() + 1,
        !w.finished(),
    ensures
        unfinished(ws.push(w)) == g1.live_spec(),
{
    assert(ws.push(w).drop_last() =~= ws);
}

/// Last-peer semantics: when the guard counts the unfinished workers and an
/// unfinished worker finds it at 1, every other worker has finished, so this
/// worker is the one whose `execute` reports `Finished`.
pub proof fn lemma_last_peer<R>(ws: Seq<Worker<R>>, i: int, g: PeerGuard)
    requires
        unfinished(ws) == g.live_spec(),
        0 <= i < ws.len(),
        !ws[i].finished(),
    ensures
        g.live_spec() == 1 <==> forall|j: int| 0 <= j < ws.len() && j != i ==> #[trigger] ws[j].finished(),
{
    if g.live_spec() == 1 {
        assert forall|j: int| 0 <= j < ws.len() && j != i implies #[trigger] ws[j].finished() by {
            if !ws[j].finished() {
                lemma_unfinished_counts(ws, i, j);
            }
        }
    }
    if forall|j: int| 0 <= j < ws.len() && j != i ==> #[trigger] ws[j].finished() {
        lemma_only_unfinished(ws, i);
    }
}

proof fn lemma_only_unfinished<R>(ws: Seq<Worker<R>>, i: int)
    requires
        0 <= i < ws.len(),
        !ws[i].finished(),
        forall|j: int| 0 <= j < ws.len() && j != i ==> #[trigger] ws[j].finished(),
    ensures
        unfinished(ws) == 1,
    decreases ws.len(),
{
    let d = ws.drop_last();
    if i == ws.len() - 1 {
        assert forall|j: int| 0 <= j < d.len() implies #[trigger] d[j].finished() by {
            assert(d[j] == ws[j]);
        }
        lemma_all_finished(d);
    } else {
        assert(ws.last().finished());
        assert forall|j: int| 0 <= j < d.len() && j != i implies #[trigger] d[j].finished() by {
            assert(d[j] == ws[j]);
        }
        lemma_only_unfinished(d, i);
    }
}

/// Removing the element at `i` by swapping in the last one drops exactly that
/// element when all elements are distinct.
pub proof fn lemma_swap_removed_drops<S>(s: Seq<S>, i: int)
    requires
        0 <= i < s.len(),
    ensures
        swap_removed(s, i).len() == s.len() - 1,
        s.no_duplicates() ==> !swap_removed(s, i).contains(s[i]),
{
    let r = swap_removed(s, i);
    if s.no_duplicates() {
        assert forall|k: int| 0 <= k < r.len() implies r[k] != s[i] by {
            if k == i {
                assert(r[k] == s[s.len() - 1]);
            } else {
                assert(r[k] == s[k]);
            }
        }
    }
}

} // verus!
