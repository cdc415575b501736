//! Jobs that run a command on the host.
use crate::attrs::Attributes;
use crate::error::{Error, Fault};
use crate::job::common::{
    command_of, display_string, display_text, err_of, first_of, many_of, name_of, one_of,
    read_command, read_many, read_name, read_one, read_schedule, schedule_of, utf8_string,
    AttrModel, ErrorModel, ExecutionReport, ReportModel,
};
use crate::job::steps::{
    failed, step_failed, step_unexpected, unexpected, Action, ActionModel, Event, EventModel,
    LocalCommand, LocalCommandModel, ProcessOutput, ProcessOutputModel, Progress, ProgressModel,
};
use crate::schedule::Schedule;
use crate::text::{clone_opt, clone_strings, join_from, joined, split, split_on};
use vstd::prelude::*;
use vstd::utf8::{decode_utf8, valid_utf8};

verus! {

/// The kind of the jobs that run a command on the host.
pub const LOCAL_LABEL: &'static str = "job-local";

/// What stands for the host in the display string of a job.
pub const HOST_LABEL: &'static str = "CFC_HOST";

/// A command to run on the host.
#[derive(Debug)]
pub struct LocalJobInfo {
    /// The display name of the job.
    pub name: String,
    /// When the job fires.
    pub schedule: Schedule,
    /// The program to run.
    pub command: String,
    /// The directory in which the program runs.
    pub dir: Option<String>,
    /// The environment variables to add, each as `KEY=VALUE`.
    pub environment: Vec<String>,
}

/// The model of a [`LocalJobInfo`].
pub struct LocalJobModel {
    pub name: Seq<char>,
    pub schedule: Seq<char>,
    pub command: Seq<char>,
    pub dir: Option<Seq<char>>,
    pub environment: Seq<Seq<char>>,
}

impl View for LocalJobInfo {
    type V = LocalJobModel;

    open spec fn view(&self) -> LocalJobModel {
        LocalJobModel {
            name: self.name@,
            schedule: self.schedule@,
            command: self.command@,
            dir: self.dir.deep_view(),
            environment: self.environment.deep_view(),
        }
    }
}

impl Clone for LocalJobInfo {
    fn clone(&self) -> (r: Self)
        ensures
            r@ == self@,
    {
        LocalJobInfo {
            name: self.name.clone(),
            schedule: self.schedule.clone(),
            command: self.command.clone(),
            dir: clone_opt(&self.dir),
            environment: clone_strings(&self.environment),
        }
    }
}

/// The first error that the attributes of a local job hold, taking the
/// attributes in the order `name`, `schedule`, `command`, `dir`.
pub open spec fn local_error(m: AttrModel, key: Option<Seq<char>>) -> Option<ErrorModel> {
    first_of(
        err_of(name_of(m, key)),
        first_of(
            err_of(schedule_of(m)),
            first_of(err_of(command_of(m)), err_of(one_of(m, "dir"@))),
        ),
    )
}

/// The local job that the attributes `m` describe, for a job that stands
/// under `key` in the normalized map. Attributes that the job does not
/// have are passed over.
pub open spec fn decoded_local(m: AttrModel, key: Option<Seq<char>>) -> Result<
    LocalJobModel,
    ErrorModel,
> {
    match local_error(m, key) {
        Some(e) => Err(e),
        None => Ok(
            LocalJobModel {
                name: name_of(m, key)->Ok_0,
                schedule: schedule_of(m)->Ok_0,
                command: command_of(m)->Ok_0,
                dir: one_of(m, "dir"@)->Ok_0,
                environment: many_of(m, "environment"@),
            },
        ),
    }
}

impl LocalJobInfo {
    /// Builds the job from its attributes. `key` is the key under which
    /// the job stands in the normalized map, if it stands in one: it names
    /// the job where no attribute does.
    pub fn decode(value: &Attributes, key: Option<&str>) -> (r: Result<Self, Error>)
        ensures
            match r {
                Ok(job) => decoded_local(value@, key.deep_view()) == Ok::<
                    LocalJobModel,
                    ErrorModel,
                >(job@),
                Err(e) => decoded_local(value@, key.deep_view()) == Err::<
                    LocalJobModel,
                    ErrorModel,
                >(e@),
            },
    {
        let name = read_name(value, key)?;
        let schedule = read_schedule(value)?;
        let command = read_command(value)?;
        let dir = read_one(value, "dir")?;
        let environment = read_many(value, "environment");
        Ok(LocalJobInfo { name, schedule, command, dir, environment })
    }

    /// Builds the job from its attributes alone.
    pub fn try_from(value: Attributes) -> (r: Result<Self, Error>)
        ensures
            match r {
                Ok(job) => decoded_local(value@, None) == Ok::<LocalJobModel, ErrorModel>(job@),
                Err(e) => decoded_local(value@, None) == Err::<LocalJobModel, ErrorModel>(e@),
            },
    {
        LocalJobInfo::decode(&value, None)
    }

    /// The schedule of the job.
    pub fn get_schedule(&self) -> (r: Schedule)
        ensures
            r@ == self.schedule@,
    {
        self.schedule.clone()
    }

    /// Whether an execution may start while another is running.
    pub fn may_run_parallel(&self) -> (r: bool)
        ensures
            r,
    {
        true
    }

    /// The display string: the kind, the name and the mark of the host,
    /// joined by dots.
    pub fn to_string(&self) -> (r: String)
        ensures
            r@ == display_text(LOCAL_LABEL@, self.name@, HOST_LABEL@),
    {
        display_string(LOCAL_LABEL, self.name.as_str(), HOST_LABEL)
    }
}

/// What stands for output that is not UTF-8.
pub const UNREADABLE_OUTPUT: &'static str = "FAILED_TO_PARSE_OUTPUT";

/// The name and the value of an environment variable written as
/// `KEY=VALUE`: the name is what stands before the first `=`; the value is
/// what follows, with every further `=` turned into a dot.
pub open spec fn env_pair(entry: Seq<char>) -> (Seq<char>, Seq<char>) {
    let parts = split_on(entry, '=');
    (parts[0], joined(parts.skip(1), "."@))
}

/// The names and the values of a list of environment variables.
pub open spec fn env_pairs(entries: Seq<Seq<char>>) -> Seq<(Seq<char>, Seq<char>)> {
    Seq::new(entries.len(), |i: int| env_pair(entries[i]))
}

/// The request that runs the program of a job.
pub open spec fn local_command(job: LocalJobModel) -> LocalCommandModel {
    LocalCommandModel { program: job.command, env: env_pairs(job.environment), dir: job.dir }
}

/// The report of a program that ended: its exit code. A program without
/// an exit code gives no report.
pub open spec fn local_report(output: ProcessOutputModel) -> Result<ReportModel, ErrorModel> {
    match output.code {
        Some(code) => Ok(ReportModel { retval: code as i64, stdout: None, stderr: None }),
        None => Err((Fault::MissingExitCode, Seq::empty())),
    }
}

/// One step of an execution on the host: at the beginning the program is
/// run; when it has ended, its exit code is the report.
pub open spec fn local_step(job: LocalJobModel, progress: ProgressModel, event: EventModel) -> (
    ProgressModel,
    ActionModel,
) {
    match (progress, event) {
        (ProgressModel::Idle, EventModel::Begin) => (
            ProgressModel::Spawned,
            ActionModel::Spawn(local_command(job)),
        ),
        (ProgressModel::Spawned, EventModel::ProcessExited(output)) => match local_report(
            output,
        ) {
            Ok(report) => (ProgressModel::Done, ActionModel::Finish(report)),
            Err(e) => (ProgressModel::Done, ActionModel::Fail(e)),
        },
        (ProgressModel::Spawned, EventModel::Failed(message)) => failed(message),
        _ => unexpected(),
    }
}

/// The output of a program as text: the bytes read as UTF-8, or a mark
/// where they are none.
pub open spec fn output_text(bytes: Seq<u8>) -> Seq<char> {
    if valid_utf8(bytes) {
        decode_utf8(bytes)
    } else {
        UNREADABLE_OUTPUT@
    }
}

/// The output of a program as text.
pub fn read_output(bytes: Vec<u8>) -> (r: String)
    ensures
        r@ == output_text(bytes@),
{
    match utf8_string(bytes) {
        Some(text) => text,
        None => String::from_str(UNREADABLE_OUTPUT),
    }
}

/// The name and the value of an environment variable.
pub fn split_env(entry: &str) -> (r: (String, String))
    ensures
        r.deep_view() == env_pair(entry@),
{
    let parts = split(entry, '=');
    let value = join_from(&parts, 1, ".");
    assert(parts.deep_view()[0] == parts@[0]@);
    (parts[0].clone(), value)
}

impl LocalJobInfo {
    /// The request that runs the program of the job.
    pub fn command_line(&self) -> (r: LocalCommand)
        ensures
            r.deep_view() == local_command(self@),
    {
        let mut env: Vec<(String, String)> = Vec::new();
        let mut i: usize = 0;
        while i < self.environment.len()
            invariant
                i <= self.environment.len(),
                env.len() == i,
                forall|j: int|
                    0 <= j < i ==> (#[trigger] env@[j]).deep_view() == env_pair(
                        self.environment@[j]@,
                    ),
            decreases self.environment.len() - i,
        {
            env.push(split_env(self.environment[i].as_str()));
            i += 1;
        }
        assert(env.deep_view() =~= env_pairs(self.environment.deep_view()));
        LocalCommand { program: self.command.clone(), env, dir: clone_opt(&self.dir) }
    }

    /// Takes one step of an execution: given where the execution stands
    /// and what happened last, says where it stands now and what is to be
    /// done next. An execution starts at [`Progress::Idle`] with
    /// [`Event::Begin`], and is over at [`Progress::Done`].
    pub fn exec(&self, progress: Progress, event: Event) -> (r: (Progress, Action))
        ensures
            r.deep_view() == local_step(self@, progress.deep_view(), event.deep_view()),
    {
        match (progress, event) {
            (Progress::Idle, Event::Begin) => (
                Progress::Spawned,
                Action::Spawn(self.command_line()),
            ),
            (Progress::Spawned, Event::ProcessExited(output)) => match output.code {
                Some(code) => (
                    Progress::Done,
                    Action::Finish(
                        ExecutionReport { retval: code as i64, stdout: None, stderr: None },
                    ),
                ),
                None => (Progress::Done, Action::Fail(Error::bare(Fault::MissingExitCode))),
            },
            (Progress::Spawned, Event::Failed(message)) => step_failed(message),
            _ => step_unexpected(),
        }
    }
}

} // verus!
