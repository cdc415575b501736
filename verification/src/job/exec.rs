//! Jobs that run a command in a running container.
use crate::attrs::Attributes;
use crate::error::{Error, Fault};
use crate::job::common::{
    command_of, display_string, display_text, err_of, first_of, flag_of, many_of, name_of, one_of,
    read_command, read_flag, read_many, read_name, read_one, read_required, read_schedule,
    required, schedule_of, with_output, AttrModel, ErrorModel, ExecutionReport, ReportModel,
};
use crate::job::steps::{
    failed, step_failed, step_unexpected, unexpected, Action, ActionModel, CreateExecModel,
    CreateExecRequest, Event, EventModel, ExecInspect, Progress, ProgressModel, StartExecModel,
    StartExecRequest,
};
use crate::schedule::Schedule;
use crate::text::{clone_opt, clone_strings};
use vstd::prelude::*;

verus! {

/// The kind of the jobs that run a command in a running container.
pub const EXEC_LABEL: &'static str = "job-exec";

/// A command to run in a container that is running when the job fires.
#[derive(Debug)]
pub struct ExecJobInfo {
    /// The display name of the job.
    pub name: String,
    /// When the job fires.
    pub schedule: Schedule,
    /// The command, as a shell would read it.
    pub command: String,
    /// The container in which the command runs.
    pub container: String,
    /// The user as whom the command runs.
    pub user: Option<String>,
    /// Whether the command gets a terminal.
    pub tty: bool,
    /// The environment variables to add, each as `KEY=VALUE`.
    pub environment: Vec<String>,
}

/// The model of an [`ExecJobInfo`].
pub struct ExecJobModel {
    pub name: Seq<char>,
    pub schedule: Seq<char>,
    pub command: Seq<char>,
    pub container: Seq<char>,
    pub user: Option<Seq<char>>,
    pub tty: bool,
    pub environment: Seq<Seq<char>>,
}

impl View for ExecJobInfo {
    type V = ExecJobModel;

    open spec fn view(&self) -> ExecJobModel {
        ExecJobModel {
            name: self.name@,
            schedule: self.schedule@,
            command: self.command@,
            container: self.container@,
            user: self.user.deep_view(),
            tty: self.tty,
            environment: self.environment.deep_view(),
        }
    }
}

impl Clone for ExecJobInfo {
    fn clone(&self) -> (r: Self)
        ensures
            r@ == self@,
    {
        ExecJobInfo {
            name: self.name.clone(),
            schedule: self.schedule.clone(),
            command: self.command.clone(),
            container: self.container.clone(),
            user: clone_opt(&self.user),
            tty: self.tty,
            environment: clone_strings(&self.environment),
        }
    }
}

impl Default for ExecJobInfo {
    fn default() -> (r: Self)
        ensures
            r@ == (ExecJobModel {
                name: Seq::empty(),
                schedule: "@hourly"@,
                command: Seq::empty(),
                container: Seq::empty(),
                user: None,
                tty: false,
                environment: Seq::empty(),
            }),
    {
        let environment: Vec<String> = Vec::new();
        assert(environment.deep_view() =~= Seq::<Seq<char>>::empty());
        ExecJobInfo {
            name: String::new(),
            schedule: Schedule::hourly(),
            command: String::new(),
            container: String::new(),
            user: None,
            tty: false,
            environment,
        }
    }
}

/// The first error that the attributes of an exec job hold, taking the
/// attributes in the order `name`, `schedule`, `command`, `container`,
/// `user`, `tty`.
pub open spec fn exec_error(m: AttrModel, key: Option<Seq<char>>) -> Option<ErrorModel> {
    first_of(
        err_of(name_of(m, key)),
        first_of(
            err_of(schedule_of(m)),
            first_of(
                err_of(command_of(m)),
                first_of(
                    err_of(required(m, "container"@)),
                    first_of(err_of(one_of(m, "user"@)), err_of(flag_of(m, "tty"@, false))),
                ),
            ),
        ),
    )
}

/// The exec job that the attributes `m` describe, for a job that stands
/// under `key` in the normalized map. Attributes that the job does not
/// have are passed over.
pub open spec fn decoded_exec(m: AttrModel, key: Option<Seq<char>>) -> Result<
    ExecJobModel,
    ErrorModel,
> {
    match exec_error(m, key) {
        Some(e) => Err(e),
        None => Ok(
            ExecJobModel {
                name: name_of(m, key)->Ok_0,
                schedule: schedule_of(m)->Ok_0,
                command: command_of(m)->Ok_0,
                container: required(m, "container"@)->Ok_0,
                user: one_of(m, "user"@)->Ok_0,
                tty: flag_of(m, "tty"@, false)->Ok_0,
                environment: many_of(m, "environment"@),
            },
        ),
    }
}

impl ExecJobInfo {
    /// Builds the job from its attributes. `key` is the key under which
    /// the job stands in the normalized map, if it stands in one: it names
    /// the job where no attribute does.
    pub fn decode(value: &Attributes, key: Option<&str>) -> (r: Result<Self, Error>)
        ensures
            match r {
                Ok(job) => decoded_exec(value@, key.deep_view()) == Ok::<ExecJobModel, ErrorModel>(
                    job@,
                ),
                Err(e) => decoded_exec(value@, key.deep_view()) == Err::<ExecJobModel, ErrorModel>(
                    e@,
                ),
            },
    {
        let name = read_name(value, key)?;
        let schedule = read_schedule(value)?;
        let command = read_command(value)?;
        let container = read_required(value, "container")?;
        let user = read_one(value, "user")?;
        let tty = read_flag(value, "tty", false)?;
        let environment = read_many(value, "environment");
        Ok(ExecJobInfo { name, schedule, command, container, user, tty, environment })
    }

    /// Builds the job from its attributes alone.
    pub fn try_from(value: Attributes) -> (r: Result<Self, Error>)
        ensures
            match r {
                Ok(job) => decoded_exec(value@, None) == Ok::<ExecJobModel, ErrorModel>(job@),
                Err(e) => decoded_exec(value@, None) == Err::<ExecJobModel, ErrorModel>(e@),
            },
    {
        ExecJobInfo::decode(&value, None)
    }

    /// The schedule of the job.
    pub fn get_schedule(&self) -> (r: Schedule)
        ensures
            r@ == self.schedule@,
    {
        self.schedule.clone()
    }

    /// Whether an execution may start while another is running.
    pub fn may_run_parallel(&self) -> (r: bool)
        ensures
            r,
    {
        true
    }

    /// The display string: the kind, the name and the container, joined by
    /// dots.
    pub fn to_string(&self) -> (r: String)
        ensures
            r@ == display_text(EXEC_LABEL@, self.name@, self.container@),
    {
        display_string(EXEC_LABEL, self.name.as_str(), self.container.as_str())
    }
}

/// The words that the `shell-words` crate splits a command line into:
/// nothing where a quote is not closed.
pub uninterp spec fn shell_split(command: Seq<char>) -> Option<Seq<Seq<char>>>;

/// `shell_words::split`.
#[verifier::external_body]
pub(crate) fn split_command(command: &str) -> (r: Option<Vec<String>>)
    ensures
        r.deep_view() == shell_split(command@),
{
    shell_words::split(command).ok()
}

/// A report after the runtime described the command: the exit code is
/// recorded, unless the command is not known to have ended or has no exit
/// code.
pub open spec fn inspected(report: ReportModel, inspect: ExecInspect) -> Result<
    ReportModel,
    ErrorModel,
> {
    if inspect.running != Some(false) {
        Err((Fault::StillRunning, Seq::empty()))
    } else {
        match inspect.exit_code {
            Some(code) => Ok(ReportModel { retval: code, ..report }),
            None => Err((Fault::MissingExitCode, Seq::empty())),
        }
    }
}

/// The request that prepares the command of a job, from the words of the
/// command: both outputs are handed back.
pub open spec fn create_request(job: ExecJobModel, words: Seq<Seq<char>>) -> CreateExecModel {
    CreateExecModel {
        container: job.container,
        cmd: words,
        env: job.environment,
        user: job.user,
        tty: job.tty,
        attach_stdout: true,
        attach_stderr: true,
    }
}

/// The first step of an execution, from the words of the command: the
/// command is prepared, unless it could not be split.
pub open spec fn exec_begin(job: ExecJobModel, words: Option<Seq<Seq<char>>>) -> (
    ProgressModel,
    ActionModel,
) {
    match words {
        Some(words) => (
            ProgressModel::Creating,
            ActionModel::CreateExec(create_request(job, words)),
        ),
        None => (ProgressModel::Done, ActionModel::Abort((Fault::InvalidCommand, job.command))),
    }
}

/// The empty report with which an execution starts.
pub open spec fn empty_report() -> ReportModel {
    ReportModel { retval: 0, stdout: None, stderr: None }
}

/// One step of an execution in a running container:
/// - at the beginning the command is split into words and prepared;
/// - once prepared it is started, attached to its output;
/// - its output is read into a report, and the runtime is asked for the
///   exit code; a command that was started detached fails loudly;
/// - the exit code completes the report.
/// A failure of the runtime ends the execution with that failure.
pub open spec fn exec_step(job: ExecJobModel, progress: ProgressModel, event: EventModel) -> (
    ProgressModel,
    ActionModel,
) {
    match (progress, event) {
        (ProgressModel::Idle, EventModel::Begin) => exec_begin(job, shell_split(job.command)),
        (ProgressModel::Creating, EventModel::ExecCreated(id)) => (
            ProgressModel::Streaming(id),
            ActionModel::StartExec(StartExecModel { id, detach: false, tty: job.tty }),
        ),
        (ProgressModel::Creating, EventModel::Failed(message)) => failed(message),
        (ProgressModel::Streaming(id), EventModel::Output(frames)) => match with_output(
            empty_report(),
            frames,
        ) {
            Ok(report) => (ProgressModel::Inspecting(id, report), ActionModel::InspectExec(id)),
            Err(e) => (ProgressModel::Done, ActionModel::Fail(e)),
        },
        (ProgressModel::Streaming(_), EventModel::ExecDetached) => (
            ProgressModel::Done,
            ActionModel::Abort((Fault::Detached, Seq::empty())),
        ),
        (ProgressModel::Streaming(_), EventModel::Failed(message)) => failed(message),
        (ProgressModel::Inspecting(_, report), EventModel::ExecInspected(inspect)) => match inspected(
            report,
            inspect,
        ) {
            Ok(done) => (ProgressModel::Done, ActionModel::Finish(done)),
            Err(e) => (ProgressModel::Done, ActionModel::Fail(e)),
        },
        (ProgressModel::Inspecting(_, _), EventModel::Failed(message)) => failed(message),
        _ => unexpected(),
    }
}

impl ExecutionReport {
    /// Records the exit code that the runtime reports for the command. It
    /// fails, and leaves the report as it was, where the runtime does not
    /// say that the command has ended, or reports no exit code.
    pub fn ingest_exec_inspect(&mut self, result: &ExecInspect) -> (r: Result<(), Error>)
        ensures
            match r {
                Ok(()) => inspected(old(self)@, *result) == Ok::<ReportModel, ErrorModel>(
                    final(self)@,
                ),
                Err(e) => *final(self) == *old(self) && inspected(old(self)@, *result) == Err::<
                    ReportModel,
                    ErrorModel,
                >(e@),
            },
    {
        match result.running {
            Some(false) => {},
            _ => {
                return Err(Error::bare(Fault::StillRunning));
            },
        }
        match result.exit_code {
            Some(code) => {
                self.retval = code;
                Ok(())
            },
            None => Err(Error::bare(Fault::MissingExitCode)),
        }
    }
}

impl ExecJobInfo {
    /// The request that prepares the command of the job.
    pub fn create_exec_request(&self, words: Vec<String>) -> (r: CreateExecRequest)
        ensures
            r.deep_view() == create_request(self@, words.deep_view()),
    {
        CreateExecRequest {
            container: self.container.clone(),
            cmd: words,
            env: clone_strings(&self.environment),
            user: clone_opt(&self.user),
            tty: self.tty,
            attach_stdout: true,
            attach_stderr: true,
        }
    }

    /// The first step of an execution, from the words of the command.
    pub fn begin(&self, words: Option<Vec<String>>) -> (r: (Progress, Action))
        ensures
            r.deep_view() == exec_begin(self@, words.deep_view()),
    {
        match words {
            Some(words) => (Progress::Creating, Action::CreateExec(self.create_exec_request(words))),
            None => (
                Progress::Done,
                Action::Abort(Error::new(Fault::InvalidCommand, self.command.as_str())),
            ),
        }
    }

    /// Takes one step of an execution: given where the execution stands
    /// and what happened last, says where it stands now and what is to be
    /// done next. An execution starts at [`Progress::Idle`] with
    /// [`Event::Begin`], and is over at [`Progress::Done`].
    pub fn exec(&self, progress: Progress, event: Event) -> (r: (Progress, Action))
        ensures
            r.deep_view() == exec_step(self@, progress.deep_view(), event.deep_view()),
    {
        match (progress, event) {
            (Progress::Idle, Event::Begin) => self.begin(split_command(self.command.as_str())),
            (Progress::Creating, Event::ExecCreated(id)) => {
                let request = StartExecRequest { id: id.clone(), detach: false, tty: self.tty };
                (Progress::Streaming(id), Action::StartExec(request))
            },
            (Progress::Creating, Event::Failed(message)) => step_failed(message),
            (Progress::Streaming(id), Event::Output(frames)) => {
                let mut report = ExecutionReport::default();
                match report.exhaust_stream(frames) {
                    Ok(()) => {
                        let again = id.clone();
                        (Progress::Inspecting(id, report), Action::InspectExec(again))
                    },
                    Err(e) => (Progress::Done, Action::Fail(e)),
                }
            },
            (Progress::Streaming(_), Event::ExecDetached) => (
                Progress::Done,
                Action::Abort(Error::bare(Fault::Detached)),
            ),
            (Progress::Streaming(_), Event::Failed(message)) => step_failed(message),
            (Progress::Inspecting(_, report), Event::ExecInspected(inspect)) => {
                let mut report = report;
                match report.ingest_exec_inspect(&inspect) {
                    Ok(()) => (Progress::Done, Action::Finish(report)),
                    Err(e) => (Progress::Done, Action::Fail(e)),
                }
            },
            (Progress::Inspecting(_, _), Event::Failed(message)) => step_failed(message),
            _ => step_unexpected(),
        }
    }
}

} // verus!
