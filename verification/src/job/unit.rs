//! Runs in a container or a service that is created for the run.
//!
//! A run creates its container or service, starts it, reads its logs to
//! their end, waits for it to end and records its exit code. Where the job
//! asks for it, what was created is removed afterwards, whether the run
//! succeeded or not.
use crate::error::{Error, Fault};
use crate::job::common::{with_output, ErrorModel, ExecutionReport, ReportModel};
use crate::job::exec::{empty_report, shell_split, split_command};
use crate::job::steps::{
    failed, step_failed, step_unexpected, unexpected, Action, ActionModel, CreateUnitModel,
    CreateUnitRequest, Ending, EndingModel, Event, EventModel, Progress, ProgressModel, UnitKind,
};
use crate::text::{clone_opt, clone_strings};
use vstd::prelude::*;

verus! {

/// What a run needs to know of its job.
pub struct UnitSpec<'a> {
    /// Whether a container or a service is created.
    pub kind: UnitKind,
    /// The command, as a shell would read it.
    pub command: &'a String,
    /// The image to create from.
    pub image: &'a Option<String>,
    /// The container whose configuration is copied.
    pub container: &'a Option<String>,
    /// The user as whom the command runs.
    pub user: &'a Option<String>,
    /// The networks to attach to.
    pub network: &'a Option<Vec<String>>,
    /// The host name.
    pub hostname: &'a Option<String>,
    /// Whether what was created is removed after the run.
    pub delete: bool,
    /// Whether the command gets a terminal.
    pub tty: bool,
    /// The volumes to mount.
    pub volume: &'a Vec<String>,
    /// The environment variables to add.
    pub environment: &'a Vec<String>,
}

/// The model of a [`UnitSpec`].
pub struct UnitModel {
    pub kind: UnitKind,
    pub command: Seq<char>,
    pub image: Option<Seq<char>>,
    pub container: Option<Seq<char>>,
    pub user: Option<Seq<char>>,
    pub network: Option<Seq<Seq<char>>>,
    pub hostname: Option<Seq<char>>,
    pub delete: bool,
    pub tty: bool,
    pub volume: Seq<Seq<char>>,
    pub environment: Seq<Seq<char>>,
}

impl<'a> View for UnitSpec<'a> {
    type V = UnitModel;

    open spec fn view(&self) -> UnitModel {
        UnitModel {
            kind: self.kind,
            command: self.command@,
            image: self.image.deep_view(),
            container: self.container.deep_view(),
            user: self.user.deep_view(),
            network: self.network.deep_view(),
            hostname: self.hostname.deep_view(),
            delete: self.delete,
            tty: self.tty,
            volume: self.volume.deep_view(),
            environment: self.environment.deep_view(),
        }
    }
}

/// The network in which a container is created: the first of the networks
/// of the job, where it names any.
pub open spec fn network_mode_of(network: Option<Seq<Seq<char>>>) -> Option<Seq<char>> {
    match network {
        Some(names) => if names.len() > 0 {
            Some(names[0])
        } else {
            None
        },
        None => None,
    }
}

/// The request that creates the container or the service of a run, from
/// the words of the command.
pub open spec fn create_unit(job: UnitModel, words: Seq<Seq<char>>) -> CreateUnitModel {
    CreateUnitModel {
        kind: job.kind,
        image: job.image,
        copy_of: job.container,
        cmd: words,
        user: job.user,
        network: job.network,
        network_mode: network_mode_of(job.network),
        hostname: job.hostname,
        volume: job.volume,
        env: job.environment,
        tty: job.tty,
    }
}

/// The first step of a run, from the words of the command: the container
/// or the service is created, unless the command could not be split.
pub open spec fn unit_begin(job: UnitModel, words: Option<Seq<Seq<char>>>) -> (
    ProgressModel,
    ActionModel,
) {
    match words {
        Some(words) => (
            ProgressModel::CreatingUnit,
            ActionModel::CreateUnit(create_unit(job, words)),
        ),
        None => (ProgressModel::Done, ActionModel::Abort((Fault::InvalidCommand, job.command))),
    }
}

/// The last step of a run: its report or its error.
pub open spec fn finish(ending: EndingModel) -> (ProgressModel, ActionModel) {
    match ending {
        EndingModel::Report(report) => (ProgressModel::Done, ActionModel::Finish(report)),
        EndingModel::Error(e) => (ProgressModel::Done, ActionModel::Fail(e)),
    }
}

/// The step after a run has ended: what was created under `id` is removed
/// where the job asks for it, and the run is over otherwise.
pub open spec fn conclude(job: UnitModel, id: Seq<char>, ending: EndingModel) -> (
    ProgressModel,
    ActionModel,
) {
    if job.delete {
        (ProgressModel::Removing(id, ending), ActionModel::RemoveUnit(job.kind, id))
    } else {
        finish(ending)
    }
}

/// How a run ends when what it created has ended: with the exit code in
/// its report, or with an error where there is no exit code.
pub open spec fn exited(report: ReportModel, code: Option<i64>) -> EndingModel {
    match code {
        Some(code) => EndingModel::Report(ReportModel { retval: code, ..report }),
        None => EndingModel::Error((Fault::MissingExitCode, Seq::empty())),
    }
}

/// How a run ends on a failure of the runtime.
pub open spec fn broken(message: Seq<char>) -> EndingModel {
    EndingModel::Error((Fault::RuntimeApi, message))
}

/// One step of a run in a fresh container or service:
/// - at the beginning the command is split into words, and the container
///   or the service is created;
/// - once created it is started, and its logs are read to their end;
/// - then its end is waited for, and its exit code completes the report;
/// - at last it is removed, where the job asks for it.
/// A failure of the runtime ends the run with that failure; what was
/// created by then is still removed. Where the removal fails after a run
/// that succeeded, that failure is the outcome.
pub open spec fn unit_step(job: UnitModel, progress: ProgressModel, event: EventModel) -> (
    ProgressModel,
    ActionModel,
) {
    match (progress, event) {
        (ProgressModel::Idle, EventModel::Begin) => unit_begin(job, shell_split(job.command)),
        (ProgressModel::CreatingUnit, EventModel::UnitCreated(id)) => (
            ProgressModel::StartingUnit(id),
            ActionModel::StartUnit(job.kind, id),
        ),
        (ProgressModel::CreatingUnit, EventModel::Failed(message)) => failed(message),
        (ProgressModel::StartingUnit(id), EventModel::UnitStarted) => (
            ProgressModel::ReadingLogs(id),
            ActionModel::ReadLogs(job.kind, id),
        ),
        (ProgressModel::StartingUnit(id), EventModel::Failed(message)) => conclude(
            job,
            id,
            broken(message),
        ),
        (ProgressModel::ReadingLogs(id), EventModel::Output(frames)) => match with_output(
            empty_report(),
            frames,
        ) {
            Ok(report) => (
                ProgressModel::AwaitingUnit(id, report),
                ActionModel::AwaitUnit(job.kind, id),
            ),
            Err(e) => conclude(job, id, EndingModel::Error(e)),
        },
        (ProgressModel::ReadingLogs(id), EventModel::Failed(message)) => conclude(
            job,
            id,
            broken(message),
        ),
        (ProgressModel::AwaitingUnit(id, report), EventModel::UnitExited(code)) => conclude(
            job,
            id,
            exited(report, code),
        ),
        (ProgressModel::AwaitingUnit(id, _), EventModel::Failed(message)) => conclude(
            job,
            id,
            broken(message),
        ),
        (ProgressModel::Removing(_, ending), EventModel::UnitRemoved) => finish(ending),
        (ProgressModel::Removing(_, ending), EventModel::Failed(message)) => match ending {
            EndingModel::Report(_) => failed(message),
            EndingModel::Error(e) => (ProgressModel::Done, ActionModel::Fail(e)),
        },
        _ => unexpected(),
    }
}

/// The last step of a run.
fn step_finish(ending: Ending) -> (r: (Progress, Action))
    ensures
        r.deep_view() == finish(ending.deep_view()),
{
    match ending {
        Ending::Report(report) => (Progress::Done, Action::Finish(report)),
        Ending::Error(e) => (Progress::Done, Action::Fail(e)),
    }
}

/// How a run ends on a failure of the runtime.
fn ending_broken(message: String) -> (r: Ending)
    ensures
        r.deep_view() == broken(message@),
{
    Ending::Error(Error { fault: Fault::RuntimeApi, detail: message })
}

impl<'a> UnitSpec<'a> {
    /// The request that creates the container or the service of a run.
    pub fn create_request(&self, words: Vec<String>) -> (r: CreateUnitRequest)
        ensures
            r.deep_view() == create_unit(self@, words.deep_view()),
    {
        CreateUnitRequest {
            kind: self.kind,
            image: clone_opt(self.image),
            copy_of: clone_opt(self.container),
            cmd: words,
            user: clone_opt(self.user),
            network: match self.network {
                Some(list) => Some(clone_strings(list)),
                None => None,
            },
            network_mode: match self.network {
                Some(list) => {
                    if list.len() > 0 {
                        assert(list.deep_view()[0] == list@[0]@);
                        Some(list[0].clone())
                    } else {
                        None
                    }
                },
                None => None,
            },
            hostname: clone_opt(self.hostname),
            volume: clone_strings(self.volume),
            env: clone_strings(self.environment),
            tty: self.tty,
        }
    }

    /// The first step of a run, from the words of the command.
    pub fn begin(&self, words: Option<Vec<String>>) -> (r: (Progress, Action))
        ensures
            r.deep_view() == unit_begin(self@, words.deep_view()),
    {
        match words {
            Some(words) => (Progress::CreatingUnit, Action::CreateUnit(self.create_request(words))),
            None => (
                Progress::Done,
                Action::Abort(Error::new(Fault::InvalidCommand, self.command.as_str())),
            ),
        }
    }

    /// The step after a run has ended.
    fn step_conclude(&self, id: String, ending: Ending) -> (r: (Progress, Action))
        ensures
            r.deep_view() == conclude(self@, id@, ending.deep_view()),
    {
        if self.delete {
            let again = id.clone();
            (Progress::Removing(id, ending), Action::RemoveUnit(self.kind, again))
        } else {
            step_finish(ending)
        }
    }

    /// Takes one step of a run: given where the run stands and what
    /// happened last, says where it stands now and what is to be done
    /// next. A run starts at [`Progress::Idle`] with [`Event::Begin`], and
    /// is over at [`Progress::Done`].
    pub fn step(&self, progress: Progress, event: Event) -> (r: (Progress, Action))
        ensures
            r.deep_view() == unit_step(self@, progress.deep_view(), event.deep_view()),
    {
        match (progress, event) {
            (Progress::Idle, Event::Begin) => self.begin(split_command(self.command.as_str())),
            (Progress::CreatingUnit, Event::UnitCreated(id)) => {
                let again = id.clone();
                (Progress::StartingUnit(id), Action::StartUnit(self.kind, again))
            },
            (Progress::CreatingUnit, Event::Failed(message)) => step_failed(message),
            (Progress::StartingUnit(id), Event::UnitStarted) => {
                let again = id.clone();
                (Progress::ReadingLogs(id), Action::ReadLogs(self.kind, again))
            },
            (Progress::StartingUnit(id), Event::Failed(message)) => self.step_conclude(
                id,
                ending_broken(message),
            ),
            (Progress::ReadingLogs(id), Event::Output(frames)) => {
                let mut report = ExecutionReport::default();
                match report.exhaust_stream(frames) {
                    Ok(()) => {
                        let again = id.clone();
                        (Progress::AwaitingUnit(id, report), Action::AwaitUnit(self.kind, again))
                    },
                    Err(e) => self.step_conclude(id, Ending::Error(e)),
                }
            },
            (Progress::ReadingLogs(id), Event::Failed(message)) => self.step_conclude(
                id,
                ending_broken(message),
            ),
            (Progress::AwaitingUnit(id, report), Event::UnitExited(code)) => {
                let ending = match code {
                    Some(code) => {
                        let mut report = report;
                        report.retval = code;
                        Ending::Report(report)
                    },
                    None => Ending::Error(Error::bare(Fault::MissingExitCode)),
                };
                self.step_conclude(id, ending)
            },
            (Progress::AwaitingUnit(id, _), Event::Failed(message)) => self.step_conclude(
                id,
                ending_broken(message),
            ),
            (Progress::Removing(_, ending), Event::UnitRemoved) => step_finish(ending),
            (Progress::Removing(_, ending), Event::Failed(message)) => match ending {
                Ending::Report(_) => step_failed(message),
                Ending::Error(e) => (Progress::Done, Action::Fail(e)),
            },
            _ => step_unexpected(),
        }
    }
}

} // verus!
