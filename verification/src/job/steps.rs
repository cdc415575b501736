//! The steps of an execution.
//!
//! An execution alternates between work that only the runtime or the host
//! can do and decisions on what to do next. The decisions are taken here:
//! an executor is given where the execution stands and what happened last,
//! and answers with where it stands now and what is to be done. The caller
//! does that, and comes back with what happened.
use crate::error::{Error, Fault};
use crate::job::common::{ExecutionReport, LogFrame, ReportModel};
use vstd::prelude::*;

verus! {

/// What the runtime says of a command that it was asked to run.
#[derive(Clone, Copy, Debug, PartialEq, Eq, Structural)]
pub struct ExecInspect {
    /// Whether the command is still running.
    pub running: Option<bool>,
    /// The exit code of the command.
    pub exit_code: Option<i64>,
}

/// A request to prepare a command in a running container.
#[derive(Clone, Debug, PartialEq, Eq)]
pub struct CreateExecRequest {
    /// The container in which the command runs.
    pub container: String,
    /// The command and its arguments.
    pub cmd: Vec<String>,
    /// The environment variables to add.
    pub env: Vec<String>,
    /// The user as whom the command runs.
    pub user: Option<String>,
    /// Whether the command gets a terminal.
    pub tty: bool,
    /// Whether the standard output is handed back.
    pub attach_stdout: bool,
    /// Whether the standard error is handed back.
    pub attach_stderr: bool,
}

/// The model of a [`CreateExecRequest`].
pub struct CreateExecModel {
    pub container: Seq<char>,
    pub cmd: Seq<Seq<char>>,
    pub env: Seq<Seq<char>>,
    pub user: Option<Seq<char>>,
    pub tty: bool,
    pub attach_stdout: bool,
    pub attach_stderr: bool,
}

impl DeepView for CreateExecRequest {
    type V = CreateExecModel;

    open spec fn deep_view(&self) -> CreateExecModel {
        CreateExecModel {
            container: self.container@,
            cmd: self.cmd.deep_view(),
            env: self.env.deep_view(),
            user: self.user.deep_view(),
            tty: self.tty,
            attach_stdout: self.attach_stdout,
            attach_stderr: self.attach_stderr,
        }
    }
}

/// A request to start a prepared command.
#[derive(Clone, Debug, PartialEq, Eq)]
pub struct StartExecRequest {
    /// The identifier of the prepared command.
    pub id: String,
    /// Whether the command runs detached from its output.
    pub detach: bool,
    /// Whether the command gets a terminal.
    pub tty: bool,
}

/// The model of a [`StartExecRequest`].
pub struct StartExecModel {
    pub id: Seq<char>,
    pub detach: bool,
    pub tty: bool,
}

impl DeepView for StartExecRequest {
    type V = StartExecModel;

    open spec fn deep_view(&self) -> StartExecModel {
        StartExecModel { id: self.id@, detach: self.detach, tty: self.tty }
    }
}

/// A request to run a program on the host.
#[derive(Clone, Debug, PartialEq, Eq)]
pub struct LocalCommand {
    /// The program to run.
    pub program: String,
    /// The environment variables to set, each as a name and a value.
    pub env: Vec<(String, String)>,
    /// The directory in which the program runs.
    pub dir: Option<String>,
}

/// The model of a [`LocalCommand`].
pub struct LocalCommandModel {
    pub program: Seq<char>,
    pub env: Seq<(Seq<char>, Seq<char>)>,
    pub dir: Option<Seq<char>>,
}

impl DeepView for LocalCommand {
    type V = LocalCommandModel;

    open spec fn deep_view(&self) -> LocalCommandModel {
        LocalCommandModel {
            program: self.program@,
            env: self.env.deep_view(),
            dir: self.dir.deep_view(),
        }
    }
}

/// What a program on the host left behind.
#[derive(Clone, Debug, PartialEq, Eq)]
pub struct ProcessOutput {
    /// The exit code, where the program ended by itself.
    pub code: Option<i32>,
    /// What the program wrote to its standard output.
    pub stdout: Vec<u8>,
    /// What the program wrote to its standard error.
    pub stderr: Vec<u8>,
}

/// The model of a [`ProcessOutput`].
pub struct ProcessOutputModel {
    pub code: Option<i32>,
    pub stdout: Seq<u8>,
    pub stderr: Seq<u8>,
}

impl DeepView for ProcessOutput {
    type V = ProcessOutputModel;

    open spec fn deep_view(&self) -> ProcessOutputModel {
        ProcessOutputModel { code: self.code, stdout: self.stdout@, stderr: self.stderr@ }
    }
}

/// What a run job creates for each run.
#[derive(Clone, Copy, Debug, PartialEq, Eq, Structural)]
pub enum UnitKind {
    /// A container.
    Container,
    /// A service with a single task.
    Service,
}

/// A request to create the container or the service of one run. It is
/// created from the image or, where there is none, with the configuration
/// of the container to copy; what the request sets overrides what either
/// brings.
#[derive(Clone, Debug, PartialEq, Eq)]
pub struct CreateUnitRequest {
    /// Whether a container or a service is created.
    pub kind: UnitKind,
    /// The image to create it from.
    pub image: Option<String>,
    /// The container whose configuration is copied.
    pub copy_of: Option<String>,
    /// The command and its arguments.
    pub cmd: Vec<String>,
    /// The user as whom the command runs.
    pub user: Option<String>,
    /// The networks to attach to.
    pub network: Option<Vec<String>>,
    /// The network in which a container is created: the first of the
    /// networks, where there is one. A service attaches to all of them.
    pub network_mode: Option<String>,
    /// The host name.
    pub hostname: Option<String>,
    /// The volumes to mount.
    pub volume: Vec<String>,
    /// The environment variables to add.
    pub env: Vec<String>,
    /// Whether the command gets a terminal.
    pub tty: bool,
}

/// The model of a [`CreateUnitRequest`].
pub struct CreateUnitModel {
    pub kind: UnitKind,
    pub image: Option<Seq<char>>,
    pub copy_of: Option<Seq<char>>,
    pub cmd: Seq<Seq<char>>,
    pub user: Option<Seq<char>>,
    pub network: Option<Seq<Seq<char>>>,
    pub network_mode: Option<Seq<char>>,
    pub hostname: Option<Seq<char>>,
    pub volume: Seq<Seq<char>>,
    pub env: Seq<Seq<char>>,
    pub tty: bool,
}

impl DeepView for CreateUnitRequest {
    type V = CreateUnitModel;

    open spec fn deep_view(&self) -> CreateUnitModel {
        CreateUnitModel {
            kind: self.kind,
            image: self.image.deep_view(),
            copy_of: self.copy_of.deep_view(),
            cmd: self.cmd.deep_view(),
            user: self.user.deep_view(),
            network: self.network.deep_view(),
            network_mode: self.network_mode.deep_view(),
            hostname: self.hostname.deep_view(),
            volume: self.volume.deep_view(),
            env: self.env.deep_view(),
            tty: self.tty,
        }
    }
}

/// How a run ended, before what it created is removed.
#[derive(Debug, PartialEq, Eq)]
pub enum Ending {
    /// With this report.
    Report(ExecutionReport),
    /// With this error.
    Error(Error),
}

/// The model of an [`Ending`].
pub enum EndingModel {
    Report(ReportModel),
    Error((Fault, Seq<char>)),
}

impl DeepView for Ending {
    type V = EndingModel;

    open spec fn deep_view(&self) -> EndingModel {
        match self {
            Ending::Report(report) => EndingModel::Report(report@),
            Ending::Error(e) => EndingModel::Error(e@),
        }
    }
}

/// What happened last.
#[derive(Clone, Debug, PartialEq, Eq)]
pub enum Event {
    /// Nothing yet: the execution begins.
    Begin,
    /// The runtime prepared the command, under this identifier.
    ExecCreated(String),
    /// The command ran attached, and this is all of its output.
    Output(Vec<LogFrame>),
    /// The command was started detached.
    ExecDetached,
    /// The runtime described the command.
    ExecInspected(ExecInspect),
    /// The program on the host ended.
    ProcessExited(ProcessOutput),
    /// The runtime created the container or the service, under this
    /// identifier.
    UnitCreated(String),
    /// The runtime started what it created.
    UnitStarted,
    /// What was created has ended, with this exit code where the runtime
    /// reports one.
    UnitExited(Option<i64>),
    /// The runtime removed what it created.
    UnitRemoved,
    /// What was asked for failed, with this message.
    Failed(String),
}

/// The model of an [`Event`].
pub enum EventModel {
    Begin,
    ExecCreated(Seq<char>),
    Output(Seq<LogFrame>),
    ExecDetached,
    ExecInspected(ExecInspect),
    ProcessExited(ProcessOutputModel),
    UnitCreated(Seq<char>),
    UnitStarted,
    UnitExited(Option<i64>),
    UnitRemoved,
    Failed(Seq<char>),
}

impl DeepView for Event {
    type V = EventModel;

    open spec fn deep_view(&self) -> EventModel {
        match self {
            Event::Begin => EventModel::Begin,
            Event::ExecCreated(id) => EventModel::ExecCreated(id@),
            Event::Output(frames) => EventModel::Output(frames@),
            Event::ExecDetached => EventModel::ExecDetached,
            Event::ExecInspected(inspect) => EventModel::ExecInspected(*inspect),
            Event::ProcessExited(output) => EventModel::ProcessExited(output.deep_view()),
            Event::UnitCreated(id) => EventModel::UnitCreated(id@),
            Event::UnitStarted => EventModel::UnitStarted,
            Event::UnitExited(code) => EventModel::UnitExited(*code),
            Event::UnitRemoved => EventModel::UnitRemoved,
            Event::Failed(message) => EventModel::Failed(message@),
        }
    }
}

/// What is to be done next.
#[derive(Debug, PartialEq, Eq)]
pub enum Action {
    /// Ask the runtime to prepare a command. Answer with
    /// [`Event::ExecCreated`].
    CreateExec(CreateExecRequest),
    /// Ask the runtime to start a prepared command and read its output to
    /// the end. Answer with [`Event::Output`] or
    /// [`Event::ExecDetached`].
    StartExec(StartExecRequest),
    /// Ask the runtime to describe a command. Answer with
    /// [`Event::ExecInspected`].
    InspectExec(String),
    /// Run a program on the host and wait for it. Answer with
    /// [`Event::ProcessExited`].
    Spawn(LocalCommand),
    /// Ask the runtime to create a container or a service. Answer with
    /// [`Event::UnitCreated`].
    CreateUnit(CreateUnitRequest),
    /// Ask the runtime to start what it created. Answer with
    /// [`Event::UnitStarted`].
    StartUnit(UnitKind, String),
    /// Read the logs of what was created to their end. Answer with
    /// [`Event::Output`].
    ReadLogs(UnitKind, String),
    /// Wait for what was created to end. Answer with
    /// [`Event::UnitExited`].
    AwaitUnit(UnitKind, String),
    /// Ask the runtime to remove what it created. Answer with
    /// [`Event::UnitRemoved`].
    RemoveUnit(UnitKind, String),
    /// The execution is over, with this report.
    Finish(ExecutionReport),
    /// The execution is over, with this error.
    Fail(Error),
    /// The execution met what must not occur: fail loudly.
    Abort(Error),
}

/// The model of an [`Action`].
pub enum ActionModel {
    CreateExec(CreateExecModel),
    StartExec(StartExecModel),
    InspectExec(Seq<char>),
    Spawn(LocalCommandModel),
    CreateUnit(CreateUnitModel),
    StartUnit(UnitKind, Seq<char>),
    ReadLogs(UnitKind, Seq<char>),
    AwaitUnit(UnitKind, Seq<char>),
    RemoveUnit(UnitKind, Seq<char>),
    Finish(ReportModel),
    Fail((Fault, Seq<char>)),
    Abort((Fault, Seq<char>)),
}

impl DeepView for Action {
    type V = ActionModel;

    open spec fn deep_view(&self) -> ActionModel {
        match self {
            Action::CreateExec(request) => ActionModel::CreateExec(request.deep_view()),
            Action::StartExec(request) => ActionModel::StartExec(request.deep_view()),
            Action::InspectExec(id) => ActionModel::InspectExec(id@),
            Action::Spawn(command) => ActionModel::Spawn(command.deep_view()),
            Action::CreateUnit(request) => ActionModel::CreateUnit(request.deep_view()),
            Action::StartUnit(kind, id) => ActionModel::StartUnit(*kind, id@),
            Action::ReadLogs(kind, id) => ActionModel::ReadLogs(*kind, id@),
            Action::AwaitUnit(kind, id) => ActionModel::AwaitUnit(*kind, id@),
            Action::RemoveUnit(kind, id) => ActionModel::RemoveUnit(*kind, id@),
            Action::Finish(report) => ActionModel::Finish(report@),
            Action::Fail(e) => ActionModel::Fail(e@),
            Action::Abort(e) => ActionModel::Abort(e@),
        }
    }
}

/// Where an execution stands.
#[derive(Debug, PartialEq, Eq)]
pub enum Progress {
    /// It has not begun.
    Idle,
    /// The runtime is preparing the command.
    Creating,
    /// The command with this identifier is running.
    Streaming(String),
    /// The command with this identifier has ended, with the output that
    /// this report holds.
    Inspecting(String, ExecutionReport),
    /// The program on the host is running.
    Spawned,
    /// The runtime is creating the container or the service.
    CreatingUnit,
    /// The runtime is starting what it created under this identifier.
    StartingUnit(String),
    /// The logs of what was created are being read.
    ReadingLogs(String),
    /// What was created is running, and this report holds its output.
    AwaitingUnit(String, ExecutionReport),
    /// The run has ended in this way, and the runtime is removing what it
    /// created.
    Removing(String, Ending),
    /// It is over.
    Done,
}

/// The model of a [`Progress`].
pub enum ProgressModel {
    Idle,
    Creating,
    Streaming(Seq<char>),
    Inspecting(Seq<char>, ReportModel),
    Spawned,
    CreatingUnit,
    StartingUnit(Seq<char>),
    ReadingLogs(Seq<char>),
    AwaitingUnit(Seq<char>, ReportModel),
    Removing(Seq<char>, EndingModel),
    Done,
}

impl DeepView for Progress {
    type V = ProgressModel;

    open spec fn deep_view(&self) -> ProgressModel {
        match self {
            Progress::Idle => ProgressModel::Idle,
            Progress::Creating => ProgressModel::Creating,
            Progress::Streaming(id) => ProgressModel::Streaming(id@),
            Progress::Inspecting(id, report) => ProgressModel::Inspecting(id@, report@),
            Progress::Spawned => ProgressModel::Spawned,
            Progress::CreatingUnit => ProgressModel::CreatingUnit,
            Progress::StartingUnit(id) => ProgressModel::StartingUnit(id@),
            Progress::ReadingLogs(id) => ProgressModel::ReadingLogs(id@),
            Progress::AwaitingUnit(id, report) => ProgressModel::AwaitingUnit(id@, report@),
            Progress::Removing(id, ending) => ProgressModel::Removing(id@, ending.deep_view()),
            Progress::Done => ProgressModel::Done,
        }
    }
}

/// The step that ends an execution on an event that its progress does not
/// expect.
pub open spec fn unexpected() -> (ProgressModel, ActionModel) {
    (ProgressModel::Done, ActionModel::Abort((Fault::UnexpectedEvent, Seq::empty())))
}

/// The step that ends an execution on a failure of the runtime.
pub open spec fn failed(message: Seq<char>) -> (ProgressModel, ActionModel) {
    (ProgressModel::Done, ActionModel::Fail((Fault::RuntimeApi, message)))
}

/// The step that ends an execution on an event that its progress does not
/// expect.
pub fn step_unexpected() -> (r: (Progress, Action))
    ensures
        r.deep_view() == unexpected(),
{
    (Progress::Done, Action::Abort(Error::bare(Fault::UnexpectedEvent)))
}

/// The step that ends an execution on a failure of the runtime.
pub fn step_failed(message: String) -> (r: (Progress, Action))
    ensures
        r.deep_view() == failed(message@),
{
    (Progress::Done, Action::Fail(Error { fault: Fault::RuntimeApi, detail: message }))
}

} // verus!
