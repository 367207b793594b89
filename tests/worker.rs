use graph_worker::{
    BuildJobError, JobConf, JobExecError, NotifyReport, PeerGuard, ResourceTable, SpanEnd,
    StepReport, TaskState, Worker, WorkerId, WorkerTask,
};

fn conf(job_id: u64, total_workers: u32, time_limit: u64) -> JobConf {
    JobConf {
        job_id,
        job_name: "job".to_string(),
        total_workers,
        batch_size: 1024,
        batch_capacity: 64,
        time_limit,
    }
}

fn id(job_id: u64, index: u32, total_peers: u32) -> WorkerId {
    WorkerId { job_id, index, total_peers }
}

fn installed(guard: &mut PeerGuard, c: &JobConf, index: u32, peers: u32) -> Worker<u32> {
    let (mut w, _) = Worker::new(c.clone(), id(c.job_id, index, peers), guard);
    let senders: Vec<u8> = (0..=peers).map(|i| i as u8).collect();
    assert!(w.dataflow(0, senders, |_es| Ok(())).is_ok());
    w
}

#[test]
fn single_peer_job_runs_to_completion() {
    let c = conf(7, 1, 0);
    let mut guard = PeerGuard::new();
    let (mut w, first) = Worker::<u32>::new(c.clone(), id(7, 0, 1), &mut guard);
    assert!(first);
    assert_eq!(guard.live(), 1);
    let senders = w.event_senders(0, vec![1u8]).ok().unwrap();
    assert_eq!(senders.kept, vec![1u8]);
    assert!(senders.own.is_none());
    let r = w.dataflow(0, vec![1u8], |es| {
        assert_eq!(es.kept, vec![1u8]);
        Ok(())
    });
    assert!(r.is_ok());
    assert_eq!(w.task(), WorkerTask::Dataflow);

    assert!(w.execute(&mut guard, 5, false, None).is_none());
    let o = w.execute(&mut guard, 5, false, Some(StepReport::Running(Ok(false)))).unwrap();
    assert_eq!(o.state, TaskState::Ready);
    assert!(o.span.is_none());
    let o = w.execute(&mut guard, 6, false, Some(StepReport::Running(Ok(true)))).unwrap();
    assert_eq!(o.state, TaskState::NotReady);

    let o = w.execute(&mut guard, 12, false, Some(StepReport::Drained(Ok(())))).unwrap();
    assert_eq!(o.state, TaskState::Finished);
    assert_eq!(o.span, Some(SpanEnd::Completed { used_ms: 12 }));
    assert!(o.error.is_none());
    assert!(w.is_finished());
    assert_eq!(guard.live(), 0);
    // the job leaves the memory accountant when the last worker is dropped
    assert!(w.release(&mut guard));
    assert_eq!(guard.live(), 0);
}

#[test]
fn cancel_hook_finishes_every_peer() {
    let c = conf(9, 3, 0);
    let mut guard = PeerGuard::new();
    let mut workers: Vec<Worker<u32>> = (0..3).map(|i| installed(&mut guard, &c, i, 3)).collect();
    assert_eq!(guard.live(), 3);
    for w in workers.iter_mut() {
        let o = w.execute(&mut guard, 0, true, None).unwrap();
        assert_eq!(o.state, TaskState::Finished);
        assert_eq!(o.span, Some(SpanEnd::Canceled));
        assert!(o.set_cancel_hook);
        let o = w.check_ready(guard.live(), 0, true, None).unwrap();
        assert_eq!(o.state, TaskState::Finished);
    }
    // cancellation does not count a worker out; dropping it does, once
    assert_eq!(guard.live(), 3);
    let mut last = Vec::new();
    for w in workers.iter_mut() {
        last.push(w.release(&mut guard));
    }
    assert_eq!(last, vec![false, false, true]);
    assert_eq!(guard.live(), 0);
    for w in workers.iter_mut() {
        assert!(w.release(&mut guard));
        assert_eq!(guard.live(), 0);
    }
}

#[test]
fn only_the_last_peer_reports_finished() {
    let c = conf(3, 2, 0);
    let mut guard = PeerGuard::new();
    let mut a = installed(&mut guard, &c, 0, 2);
    let mut b = installed(&mut guard, &c, 1, 2);
    let oa = a.execute(&mut guard, 1, false, Some(StepReport::Drained(Ok(())))).unwrap();
    assert_eq!(oa.state, TaskState::NotReady);
    assert_eq!(guard.live(), 1);
    let o = a.check_ready(guard.live(), 2, false, None).unwrap();
    assert_eq!(o.state, TaskState::NotReady);
    let ob = b.execute(&mut guard, 3, false, Some(StepReport::Drained(Ok(())))).unwrap();
    assert_eq!(ob.state, TaskState::Finished);
    assert_eq!(guard.live(), 0);
    let o = a.check_ready(guard.live(), 4, false, None).unwrap();
    assert_eq!(o.state, TaskState::Finished);
    assert!(a.release(&mut guard));
}

#[test]
fn wrong_sender_count_is_refused() {
    let c = conf(4, 2, 0);
    let mut guard = PeerGuard::new();
    let (w, _) = Worker::<u32>::new(c, id(4, 0, 2), &mut guard);
    match w.event_senders(0, vec![0u8, 1u8]) {
        Err(BuildJobError::InternalError(msg)) => {
            assert_eq!(msg, "Incorrect number of senders, senders size: 2, total_peers: 2;");
        }
        _ => panic!("expected an internal error"),
    }
    assert_eq!(w.task(), WorkerTask::Empty);
}

#[test]
fn event_channel_index_must_be_zero() {
    let c = conf(4, 1, 0);
    let mut guard = PeerGuard::new();
    let (w, _) = Worker::<u32>::new(c, id(4, 0, 1), &mut guard);
    match w.event_senders(1, vec![0u8]) {
        Err(BuildJobError::InternalError(msg)) => assert_eq!(msg, "Event channel index must be 0"),
        _ => panic!("expected an internal error"),
    }
}

#[test]
fn own_sender_is_taken_out() {
    let c = conf(5, 3, 0);
    let mut guard = PeerGuard::new();
    let (w, _) = Worker::<u32>::new(c, id(5, 0, 3), &mut guard);
    let s = w.event_senders(0, vec![10u8, 11, 12, 13]).ok().unwrap();
    assert_eq!(s.kept, vec![13u8, 11, 12]);
    assert_eq!(s.own, Some(10u8));
    let (w2, _) = Worker::<u32>::new(conf(5, 3, 0), id(5, 2, 3), &mut guard);
    let s = w2.event_senders(0, vec![10u8, 11, 12, 13]).ok().unwrap();
    assert_eq!(s.kept, vec![10u8, 11, 13]);
    assert_eq!(s.own, Some(12u8));
    assert!(!s.kept.contains(&12));
    let (mut w3, _) = Worker::<u32>::new(conf(5, 3, 0), id(5, 1, 3), &mut guard);
    let r = w3.dataflow(0, vec![10u8, 11, 12, 13], |es| {
        assert_eq!(es.kept, vec![10u8, 13, 12]);
        assert_eq!(es.own, Some(11u8));
        Ok(())
    });
    assert!(r.is_ok());
    assert_eq!(w3.task(), WorkerTask::Dataflow);
    let (mut w4, _) = Worker::<u32>::new(conf(5, 3, 0), id(5, 1, 3), &mut guard);
    let r = w4.dataflow(0, vec![10u8, 11, 12], |_es| Ok(()));
    assert!(matches!(r, Err(BuildJobError::InternalError(_))));
    assert_eq!(w4.task(), WorkerTask::Empty);
}

#[test]
fn failed_build_leaves_the_task_empty() {
    let mut guard = PeerGuard::new();
    let (mut w, _) = Worker::<u32>::new(conf(6, 1, 0), id(6, 0, 1), &mut guard);
    let r = w.dataflow(0, vec![0u8], |_es| Err(BuildJobError::UserError("bad plan".to_string())));
    assert!(matches!(r, Err(BuildJobError::UserError(_))));
    assert_eq!(w.task(), WorkerTask::Empty);
    // an empty task finishes at once
    let o = w.execute(&mut guard, 0, false, Some(StepReport::Running(Ok(false)))).unwrap();
    assert_eq!(o.state, TaskState::Finished);
}

#[test]
fn execution_error_goes_to_the_sink() {
    let mut guard = PeerGuard::new();
    let mut w = installed(&mut guard, &conf(8, 1, 0), 0, 1);
    let o = w.execute(&mut guard, 3, false, Some(StepReport::StepFailed(JobExecError::Schedule("boom".to_string())))).unwrap();
    assert_eq!(o.state, TaskState::Finished);
    assert_eq!(o.span, Some(SpanEnd::Failed));
    assert!(matches!(o.error, Some(JobExecError::Schedule(_))));
    assert!(!w.is_finished());
    assert_eq!(guard.live(), 1);
    let o = w.execute(&mut guard, 3, false, Some(StepReport::Running(Err(JobExecError::Store("x".to_string()))))).unwrap();
    assert!(matches!(o.error, Some(JobExecError::Store(_))));
    let o = w.execute(&mut guard, 3, false, Some(StepReport::Drained(Err(JobExecError::Schedule("c".to_string()))))).unwrap();
    assert_eq!(o.state, TaskState::Finished);
    assert_eq!(guard.live(), 1);
    assert!(w.release(&mut guard));
}

#[test]
fn readiness_follows_the_dataflow() {
    let mut guard = PeerGuard::new();
    let w = installed(&mut guard, &conf(8, 1, 0), 0, 1);
    assert!(w.check_ready(guard.live(), 0, false, None).is_none());
    let o = w.check_ready(guard.live(), 0, false, Some(NotifyReport::Probed(Ok(true)))).unwrap();
    assert_eq!(o.state, TaskState::NotReady);
    let o = w.check_ready(guard.live(), 0, false, Some(NotifyReport::Probed(Ok(false)))).unwrap();
    assert_eq!(o.state, TaskState::Ready);
    let o = w.check_ready(guard.live(), 0, false, Some(NotifyReport::NotifyFailed(JobExecError::Schedule("n".to_string())))).unwrap();
    assert_eq!(o.state, TaskState::Finished);
    assert!(o.error.is_some());
    let o = w.check_ready(guard.live(), 0, true, None).unwrap();
    assert_eq!(o.state, TaskState::Finished);
    assert!(o.set_cancel_hook);
}

#[test]
fn time_limit_cancels() {
    let mut guard = PeerGuard::new();
    let mut w = installed(&mut guard, &conf(8, 1, 100), 0, 1);
    assert!(!w.check_cancel(99, false));
    assert!(w.check_cancel(100, false));
    assert!(w.check_cancel(0, true));
    assert_eq!(w.execute(&mut guard, 150, false, None).unwrap().span, Some(SpanEnd::Canceled));
    let unlimited = installed(&mut guard, &conf(8, 1, 0), 0, 1);
    assert!(!unlimited.check_cancel(1_000_000, false));
}

#[test]
fn worker_task_states() {
    assert_eq!(WorkerTask::Empty.execute(StepReport::Running(Ok(false))).ok(), Some(TaskState::Finished));
    assert_eq!(WorkerTask::Dataflow.execute(StepReport::Running(Ok(false))).ok(), Some(TaskState::Ready));
    assert_eq!(WorkerTask::Dataflow.execute(StepReport::Running(Ok(true))).ok(), Some(TaskState::NotReady));
    assert_eq!(WorkerTask::Dataflow.execute(StepReport::Drained(Ok(()))).ok(), Some(TaskState::Finished));
    assert!(WorkerTask::Dataflow.execute(StepReport::StepFailed(JobExecError::Schedule("s".to_string()))).is_err());
    assert_eq!(WorkerTask::Empty.check_ready(NotifyReport::Probed(Ok(false))).ok(), Some(TaskState::Finished));
    assert_eq!(WorkerTask::Dataflow.check_ready(NotifyReport::Probed(Ok(false))).ok(), Some(TaskState::Ready));
    assert!(WorkerTask::Dataflow.check_ready(NotifyReport::Probed(Err(JobExecError::Schedule("i".to_string())))).is_err());
}

#[test]
fn resources_move_into_the_scope_and_back() {
    let mut guard = PeerGuard::new();
    let mut w = installed(&mut guard, &conf(8, 1, 0), 0, 1);
    w.add_resource("u32".to_string(), 1);
    w.add_resource("u32".to_string(), 2);
    w.add_resource_with_key("cache".to_string(), 3);
    let mut slot = ResourceTable::new();
    let mut key_slot = ResourceTable::new();
    let ctx = w.enter_scope(&mut slot, &mut key_slot);
    assert!(ctx.resource && ctx.keyed_resources);
    assert_eq!(slot.len(), 1);
    assert_eq!(key_slot.len(), 1);
    w.exit_scope(ctx, &mut slot, &mut key_slot);
    assert!(slot.is_empty() && key_slot.is_empty());
    let mut slot2 = ResourceTable::new();
    let mut key_slot2 = ResourceTable::new();
    let ctx = w.enter_scope(&mut slot2, &mut key_slot2);
    assert_eq!(slot2.len(), 1);
    w.exit_scope(ctx, &mut slot2, &mut key_slot2);
}

#[test]
fn empty_tables_stay_with_the_worker() {
    let mut guard = PeerGuard::new();
    let mut w = installed(&mut guard, &conf(8, 1, 0), 0, 1);
    let mut slot = ResourceTable::new();
    slot.insert("other".to_string(), 9u32);
    let mut key_slot = ResourceTable::new();
    let ctx = w.enter_scope(&mut slot, &mut key_slot);
    assert!(!ctx.resource && !ctx.keyed_resources);
    assert_eq!(slot.len(), 1);
    w.exit_scope(ctx, &mut slot, &mut key_slot);
    assert_eq!(slot.len(), 1);
}

#[test]
fn guard_counts_registrations() {
    let mut g = PeerGuard::new();
    assert!(g.register());
    assert!(!g.register());
    assert_eq!(g.live(), 2);
    assert!(!g.complete());
    assert!(g.complete());
    assert_eq!(g.live(), 0);
}
