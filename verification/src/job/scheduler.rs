//! The scheduler of a job.
//!
//! The loop of a job waits for two things: the next time the schedule
//! fires, and the end of the executions it has started. The loop itself,
//! with its timer and its tasks, belongs to the caller; what to do on each
//! outcome is decided here.
use crate::error::{kind_of, Error, ErrorKind, Fault};
use crate::job::common::{ErrorModel, ExecInfo, ExecutionReport, ReportModel};
use crate::job::exec::exec_step;
use crate::job::local::local_step;
use crate::job::run::run_unit;
use crate::job::servicerun::service_unit;
use crate::job::steps::{Action, ActionModel, Event, EventModel, Progress, ProgressModel};
use crate::job::unit::unit_step;
use crate::job::{JobInfo, JobModel};
use vstd::prelude::*;

verus! {

/// An outcome that the loop of a job waits for.
pub enum OutcomeModel {
    /// The schedule fired.
    Fire,
    /// An execution ended with a report.
    Report(ReportModel),
    /// An execution ended with an error, or did not end as it should.
    Error(ErrorModel),
}

/// The model of an outcome as the loop receives it.
pub open spec fn outcome_model(outcome: Result<ExecInfo, Error>) -> OutcomeModel {
    match outcome {
        Ok(ExecInfo::Schedule(_)) => OutcomeModel::Fire,
        Ok(ExecInfo::Report(report)) => OutcomeModel::Report(report@),
        Err(e) => OutcomeModel::Error(e@),
    }
}

/// What the loop of a job does next.
#[derive(Debug, PartialEq, Eq)]
pub enum Decision {
    /// Start one execution, and wait for the next time the schedule fires.
    RunAndWait,
    /// Wait for the next time the schedule fires: this one is dropped.
    Wait,
    /// Log the report of an execution that ended, and go on.
    Report(ExecutionReport),
    /// Log the error of an execution that failed, and go on.
    Error(Error),
    /// Leave the loop, dropping what is still running: quietly on a
    /// cancellation, with the error otherwise.
    Stop(Error),
}

/// The model of a [`Decision`].
pub enum DecisionModel {
    RunAndWait,
    Wait,
    Report(ReportModel),
    Error(ErrorModel),
    Stop(ErrorModel),
}

impl View for Decision {
    type V = DecisionModel;

    open spec fn view(&self) -> DecisionModel {
        match self {
            Decision::RunAndWait => DecisionModel::RunAndWait,
            Decision::Wait => DecisionModel::Wait,
            Decision::Report(report) => DecisionModel::Report(report@),
            Decision::Error(e) => DecisionModel::Error(e@),
            Decision::Stop(e) => DecisionModel::Stop(e@),
        }
    }
}

/// The state of the loop of a job.
#[derive(Clone, Copy, Debug, PartialEq, Eq, Structural)]
pub struct Scheduler {
    /// Whether an execution may start while another is running.
    pub may_run_parallel: bool,
    /// How many executions are running.
    pub running: usize,
    /// Whether the loop was left.
    pub stopped: bool,
}

/// Whether a state can be reached: without the leave to run in parallel at
/// most one execution is running, and none after the loop was left.
pub open spec fn consistent(s: Scheduler) -> bool {
    &&& !s.may_run_parallel ==> s.running <= 1
    &&& s.stopped ==> s.running == 0
}

/// The state in which the loop is left.
pub open spec fn halted(s: Scheduler) -> Scheduler {
    Scheduler { running: 0, stopped: true, ..s }
}

/// Whether an error ends the loop: a cancellation does, and so does an
/// execution that did not end as it should.
pub open spec fn ends_loop(fault: Fault) -> bool {
    kind_of(fault) == ErrorKind::Cancel || kind_of(fault) == ErrorKind::Fatal
}

/// The state after an outcome, and what to do:
/// - when the schedule fires, an execution starts if none is running or
///   the job may run in parallel, and the fire is dropped otherwise;
/// - a report or an error of an execution is logged, and the loop goes on;
/// - a cancellation, or an execution that did not end as it should, ends
///   the loop, and so does the end of an execution when none is running;
/// - once the loop was left, it stays so.
pub open spec fn after(s: Scheduler, outcome: OutcomeModel) -> (Scheduler, DecisionModel) {
    if s.stopped {
        (s, DecisionModel::Stop((Fault::Exhausted, Seq::empty())))
    } else {
        match outcome {
            OutcomeModel::Fire => if (s.may_run_parallel || s.running == 0) && s.running
                < usize::MAX {
                (Scheduler { running: (s.running + 1) as usize, ..s }, DecisionModel::RunAndWait)
            } else {
                (s, DecisionModel::Wait)
            },
            OutcomeModel::Report(report) => if s.running == 0 {
                (halted(s), DecisionModel::Stop((Fault::UnexpectedEvent, Seq::empty())))
            } else {
                (
                    Scheduler { running: (s.running - 1) as usize, ..s },
                    DecisionModel::Report(report),
                )
            },
            OutcomeModel::Error(e) => if ends_loop(e.0) {
                (halted(s), DecisionModel::Stop(e))
            } else if s.running == 0 {
                (halted(s), DecisionModel::Stop((Fault::UnexpectedEvent, Seq::empty())))
            } else {
                (Scheduler { running: (s.running - 1) as usize, ..s }, DecisionModel::Error(e))
            },
        }
    }
}

impl Scheduler {
    /// The state in which a loop starts: nothing is running. The caller
    /// waits for the first time the schedule fires.
    pub fn new(may_run_parallel: bool) -> (r: Scheduler)
        ensures
            r == (Scheduler { may_run_parallel, running: 0, stopped: false }),
            consistent(r),
    {
        Scheduler { may_run_parallel, running: 0, stopped: false }
    }

    /// Takes an outcome: says what the loop does next, and keeps count of
    /// the executions that are running.
    pub fn on_outcome(&mut self, outcome: Result<ExecInfo, Error>) -> (r: Decision)
        ensures
            (*final(self), r@) == after(*old(self), outcome_model(outcome)),
            consistent(*old(self)) ==> consistent(*final(self)),
    {
        if self.stopped {
            return Decision::Stop(Error::bare(Fault::Exhausted));
        }
        match outcome {
            Ok(ExecInfo::Schedule(_)) => {
                if (self.may_run_parallel || self.running == 0) && self.running < usize::MAX {
                    self.running = self.running + 1;
                    Decision::RunAndWait
                } else {
                    Decision::Wait
                }
            },
            Ok(ExecInfo::Report(report)) => {
                if self.running == 0 {
                    self.stopped = true;
                    Decision::Stop(Error::bare(Fault::UnexpectedEvent))
                } else {
                    self.running = self.running - 1;
                    Decision::Report(report)
                }
            },
            Err(e) => {
                let kind = e.kind();
                if kind == ErrorKind::Cancel || kind == ErrorKind::Fatal {
                    self.running = 0;
                    self.stopped = true;
                    Decision::Stop(e)
                } else if self.running == 0 {
                    self.stopped = true;
                    Decision::Stop(Error::bare(Fault::UnexpectedEvent))
                } else {
                    self.running = self.running - 1;
                    Decision::Error(e)
                }
            },
        }
    }
}

/// One step of an execution of a job, as its kind takes it.
pub open spec fn job_step(job: JobModel, progress: ProgressModel, event: EventModel) -> (
    ProgressModel,
    ActionModel,
) {
    match job {
        JobModel::ExecJob(job) => exec_step(job, progress, event),
        JobModel::RunJob(job) => unit_step(run_unit(job), progress, event),
        JobModel::LocalJob(job) => local_step(job, progress, event),
        JobModel::ServiceRunJob(job) => unit_step(service_unit(job), progress, event),
    }
}

impl JobInfo {
    /// Takes one step of an execution of the job: given where the
    /// execution stands and what happened last, says where it stands now
    /// and what is to be done next.
    pub fn exec(&self, progress: Progress, event: Event) -> (r: (Progress, Action))
        ensures
            r.deep_view() == job_step(self@, progress.deep_view(), event.deep_view()),
    {
        match self {
            JobInfo::ExecJob(job) => job.exec(progress, event),
            JobInfo::RunJob(job) => job.exec(progress, event),
            JobInfo::LocalJob(job) => job.exec(progress, event),
            JobInfo::ServiceRunJob(job) => job.exec(progress, event),
        }
    }

    /// Starts the scheduling of the job: the state of its loop before the
    /// first outcome.
    pub fn start(&self) -> (r: Scheduler)
        ensures
            r == (Scheduler { may_run_parallel: true, running: 0, stopped: false }),
    {
        Scheduler::new(self.may_run_parallel())
    }
}

/// A loop that may not run in parallel never has more than one execution
/// running, and a loop that was left has none: whatever the outcomes, a
/// state that can be reached is followed by such a state.
pub proof fn lemma_at_most_one_running(s: Scheduler, outcome: OutcomeModel)
    requires
        consistent(s),
    ensures
        consistent(after(s, outcome).0),
        !s.may_run_parallel ==> after(s, outcome).0.running <= 1,
{
}

/// Once the loop is left nothing is running, nothing is started any more,
/// and the loop stays left.
pub proof fn lemma_stop_is_final(s: Scheduler, outcome: OutcomeModel, later: OutcomeModel)
    requires
        after(s, outcome).1 is Stop,
    ensures
        after(s, outcome).0.stopped,
        s.stopped || after(s, outcome).0.running == 0,
        after(after(s, outcome).0, later).1 is Stop,
        after(after(s, outcome).0, later).0 == after(s, outcome).0,
{
}

/// When the schedule fires while an execution is running and the job may
/// not run in parallel, the fire is dropped: nothing starts and nothing is
/// queued.
pub proof fn lemma_fire_is_dropped(s: Scheduler)
    requires
        !s.stopped,
        !s.may_run_parallel,
        s.running >= 1,
    ensures
        after(s, OutcomeModel::Fire) == (s, DecisionModel::Wait),
{
}

/// The state of a loop after a sequence of outcomes, taken in order.
pub open spec fn after_all(s: Scheduler, outcomes: Seq<OutcomeModel>) -> Scheduler
    decreases outcomes.len(),
{
    if outcomes.len() == 0 {
        s
    } else {
        after(after_all(s, outcomes.drop_last()), outcomes.last()).0
    }
}

/// At every instant of a loop, whatever came before: a job that may not
/// run in parallel has at most one execution running.
pub proof fn lemma_never_more_than_one(may_run_parallel: bool, outcomes: Seq<OutcomeModel>)
    ensures
        consistent(
            after_all(Scheduler { may_run_parallel, running: 0, stopped: false }, outcomes),
        ),
        !may_run_parallel ==> after_all(
            Scheduler { may_run_parallel, running: 0, stopped: false },
            outcomes,
        ).running <= 1,
    decreases outcomes.len(),
{
    let start = Scheduler { may_run_parallel, running: 0, stopped: false };
    if outcomes.len() > 0 {
        lemma_never_more_than_one(may_run_parallel, outcomes.drop_last());
        lemma_at_most_one_running(after_all(start, outcomes.drop_last()), outcomes.last());
        lemma_keeps_leave(start, outcomes);
    }
}

/// The leave to run in parallel does not change during a loop.
proof fn lemma_keeps_leave(s: Scheduler, outcomes: Seq<OutcomeModel>)
    ensures
        after_all(s, outcomes).may_run_parallel == s.may_run_parallel,
    decreases outcomes.len(),
{
    if outcomes.len() > 0 {
        lemma_keeps_leave(s, outcomes.drop_last());
    }
}

/// How many timers an outcome ends: the one that fired.
pub open spec fn timers_ended(outcome: OutcomeModel) -> nat {
    match outcome {
        OutcomeModel::Fire => 1,
        _ => 0,
    }
}

/// How many timers a decision starts.
pub open spec fn timers_started(decision: DecisionModel) -> nat {
    match decision {
        DecisionModel::RunAndWait => 1,
        DecisionModel::Wait => 1,
        _ => 0,
    }
}

/// How many executions a decision starts.
pub open spec fn executions_started(decision: DecisionModel) -> nat {
    match decision {
        DecisionModel::RunAndWait => 1,
        _ => 0,
    }
}

/// As long as the loop goes on, every timer that fires is followed by
/// exactly one new timer, and nothing else starts one: one timer is
/// outstanding at all times.
pub proof fn lemma_one_timer(s: Scheduler, outcome: OutcomeModel)
    requires
        !after(s, outcome).0.stopped,
    ensures
        timers_started(after(s, outcome).1) == timers_ended(outcome),
{
}

/// A job that may run in parallel starts an execution whenever its
/// schedule fires, as far as the executions can be counted; and the count
/// of the executions running goes by what starts and what ends.
pub proof fn lemma_parallel_starts_at_every_fire(s: Scheduler)
    requires
        !s.stopped,
        s.may_run_parallel,
        s.running < usize::MAX,
    ensures
        after(s, OutcomeModel::Fire) == (
            Scheduler { running: (s.running + 1) as usize, ..s },
            DecisionModel::RunAndWait,
        ),
        executions_started(after(s, OutcomeModel::Fire).1) == 1,
{
}

} // verus!
