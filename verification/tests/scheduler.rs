use cfc::error::{Error, Fault};
use cfc::job::scheduler::{Decision, Scheduler};
use cfc::job::{ExecInfo, ExecJobInfo, ExecutionReport, ExecutionSchedule, JobInfo};

fn fire() -> Result<ExecInfo, Error> {
    Ok(ExecInfo::Schedule(ExecutionSchedule {}))
}

fn report(retval: i64) -> ExecutionReport {
    ExecutionReport { retval, stdout: None, stderr: None }
}

fn done(retval: i64) -> Result<ExecInfo, Error> {
    Ok(ExecInfo::Report(report(retval)))
}

#[test]
fn serial_job_drops_fires_while_it_runs() {
    // Fires every second; the execution that starts at the first fire takes two and
    // a half seconds, so two more fires come while it runs.
    let mut s = Scheduler::new(false);
    assert_eq!(s.on_outcome(fire()), Decision::RunAndWait);
    assert_eq!(s.running, 1);
    assert_eq!(s.on_outcome(fire()), Decision::Wait);
    assert_eq!(s.on_outcome(fire()), Decision::Wait);
    assert_eq!(s.running, 1);
    assert_eq!(s.on_outcome(done(0)), Decision::Report(report(0)));
    assert_eq!(s.running, 0);
    assert_eq!(s.on_outcome(fire()), Decision::RunAndWait);
    assert_eq!(s.running, 1);
}

#[test]
fn serial_job_never_runs_twice_at_once() {
    let mut s = Scheduler::new(false);
    let outcomes = [fire(), fire(), done(1), fire(), fire(), fire(),
        Err(Error::new(Fault::RuntimeApi, "x")), fire(), done(0), fire()];
    let mut started = 0;
    for outcome in outcomes {
        if s.on_outcome(outcome) == Decision::RunAndWait {
            started += 1;
        }
        assert!(s.running <= 1);
        assert!(!s.stopped);
    }
    assert_eq!(started, 4);
}

#[test]
fn parallel_job_starts_at_every_fire() {
    let mut s = Scheduler::new(true);
    for n in 1..=5usize {
        assert_eq!(s.on_outcome(fire()), Decision::RunAndWait);
        assert_eq!(s.running, n);
    }
    assert_eq!(s.on_outcome(done(0)), Decision::Report(report(0)));
    assert_eq!(s.running, 4);
}

#[test]
fn failed_execution_does_not_stop_the_loop() {
    let mut s = Scheduler::new(true);
    assert_eq!(s.on_outcome(fire()), Decision::RunAndWait);
    let e = Error::new(Fault::RuntimeApi, "no such container");
    assert_eq!(s.on_outcome(Err(e.clone())), Decision::Error(e));
    assert_eq!(s.running, 0);
    assert!(!s.stopped);
    assert_eq!(s.on_outcome(fire()), Decision::RunAndWait);
}

#[test]
fn abnormal_end_of_an_execution_stops_the_loop() {
    let mut s = Scheduler::new(true);
    s.on_outcome(fire());
    s.on_outcome(fire());
    let e = Error::new(Fault::JoinFailure, "task panicked");
    assert_eq!(s.on_outcome(Err(e.clone())), Decision::Stop(e));
    assert!(s.stopped);
    assert_eq!(s.running, 0);
}

#[test]
fn cancellation_stops_the_loop_for_good() {
    let mut s = Scheduler::new(true);
    s.on_outcome(fire());
    s.on_outcome(fire());
    s.on_outcome(fire());
    let cancel = Error::bare(Fault::Cancelled);
    assert_eq!(s.on_outcome(Err(cancel.clone())), Decision::Stop(cancel));
    assert_eq!(s, Scheduler { may_run_parallel: true, running: 0, stopped: true });
    for outcome in [fire(), done(0), Err(Error::bare(Fault::RuntimeApi)), fire()] {
        assert_eq!(s.on_outcome(outcome), Decision::Stop(Error::bare(Fault::Exhausted)));
        assert_eq!(s, Scheduler { may_run_parallel: true, running: 0, stopped: true });
    }
}

#[test]
fn end_of_an_execution_that_never_started_stops_the_loop() {
    let mut s = Scheduler::new(false);
    assert_eq!(s.on_outcome(done(0)), Decision::Stop(Error::bare(Fault::UnexpectedEvent)));
    assert!(s.stopped);
    let mut s = Scheduler::new(true);
    let e = Error::bare(Fault::InvalidOutput);
    assert_eq!(s.on_outcome(Err(e)), Decision::Stop(Error::bare(Fault::UnexpectedEvent)));
    assert!(s.stopped);
}

#[test]
fn counter_at_its_limit_drops_the_fire() {
    let mut s = Scheduler { may_run_parallel: true, running: usize::MAX, stopped: false };
    assert_eq!(s.on_outcome(fire()), Decision::Wait);
    assert_eq!(s.running, usize::MAX);
}

#[test]
fn job_starts_with_nothing_running() {
    let job = JobInfo::ExecJob(Box::new(ExecJobInfo::default()));
    assert_eq!(job.start(), Scheduler { may_run_parallel: true, running: 0, stopped: false });
    assert_eq!(Scheduler::new(false), Scheduler { may_run_parallel: false, running: 0, stopped: false });
}
