//! Jobs that run a command in a fresh container.
use crate::attrs::{lookup, Attributes};
use crate::error::{Error, Fault};
use crate::job::common::{
    command_of, display_string, display_target, display_text, err_of, first_of, flag_of, many_of,
    name_of, one_of, read_command, read_flag, read_list, read_many, read_name, read_one,
    read_schedule, schedule_of, target_of, AttrModel, ErrorModel,
};
use crate::job::steps::{Action, Event, Progress, UnitKind};
use crate::job::unit::{unit_step, UnitModel, UnitSpec};
use crate::schedule::Schedule;
use crate::text::{clone_opt, clone_strings};
use vstd::prelude::*;

verus! {

/// The kind of the jobs that run a command in a fresh container.
pub const RUN_LABEL: &'static str = "job-run";

/// A command to run in a container that is created for the run, from an
/// image or after the model of another container.
#[derive(Debug)]
pub struct RunJobInfo {
    /// The display name of the job.
    pub name: String,
    /// When the job fires.
    pub schedule: Schedule,
    /// The command, as a shell would read it.
    pub command: String,
    /// The image from which the container is created.
    pub image: Option<String>,
    /// The user as whom the command runs.
    pub user: Option<String>,
    /// The networks to which the container is attached.
    pub network: Option<Vec<String>>,
    /// The host name of the container.
    pub hostname: Option<String>,
    /// Whether the container is removed after the run.
    pub delete: bool,
    /// The container after whose model the new one is created.
    pub container: Option<String>,
    /// Whether the command gets a terminal.
    pub tty: bool,
    /// The volumes to mount.
    pub volume: Vec<String>,
    /// The environment variables to add, each as `KEY=VALUE`.
    pub environment: Vec<String>,
}

/// The model of a [`RunJobInfo`].
pub struct RunJobModel {
    pub name: Seq<char>,
    pub schedule: Seq<char>,
    pub command: Seq<char>,
    pub image: Option<Seq<char>>,
    pub user: Option<Seq<char>>,
    pub network: Option<Seq<Seq<char>>>,
    pub hostname: Option<Seq<char>>,
    pub delete: bool,
    pub container: Option<Seq<char>>,
    pub tty: bool,
    pub volume: Seq<Seq<char>>,
    pub environment: Seq<Seq<char>>,
}

impl View for RunJobInfo {
    type V = RunJobModel;

    open spec fn view(&self) -> RunJobModel {
        RunJobModel {
            name: self.name@,
            schedule: self.schedule@,
            command: self.command@,
            image: self.image.deep_view(),
            user: self.user.deep_view(),
            network: self.network.deep_view(),
            hostname: self.hostname.deep_view(),
            delete: self.delete,
            container: self.container.deep_view(),
            tty: self.tty,
            volume: self.volume.deep_view(),
            environment: self.environment.deep_view(),
        }
    }
}

impl Clone for RunJobInfo {
    fn clone(&self) -> (r: Self)
        ensures
            r@ == self@,
    {
        RunJobInfo {
            name: self.name.clone(),
            schedule: self.schedule.clone(),
            command: self.command.clone(),
            image: clone_opt(&self.image),
            user: clone_opt(&self.user),
            network: match &self.network {
                Some(list) => Some(clone_strings(list)),
                None => None,
            },
            hostname: clone_opt(&self.hostname),
            delete: self.delete,
            container: clone_opt(&self.container),
            tty: self.tty,
            volume: clone_strings(&self.volume),
            environment: clone_strings(&self.environment),
        }
    }
}

/// The error of a run job that names neither an image nor a container.
pub open spec fn target_error(m: AttrModel) -> Option<ErrorModel> {
    if one_of(m, "image"@) == Ok::<Option<Seq<char>>, ErrorModel>(None) && one_of(
        m,
        "container"@,
    ) == Ok::<Option<Seq<char>>, ErrorModel>(None) {
        Some((Fault::MissingTarget, Seq::empty()))
    } else {
        None
    }
}

/// The first error that the attributes of a run job hold, taking the
/// attributes in the order `name`, `schedule`, `command`, `image`, `user`,
/// `hostname`, `delete`, `container`, `tty`, and last the need for an image
/// or a container.
pub open spec fn run_error(m: AttrModel, key: Option<Seq<char>>) -> Option<ErrorModel> {
    first_of(
        err_of(name_of(m, key)),
        first_of(
            err_of(schedule_of(m)),
            first_of(
                err_of(command_of(m)),
                first_of(
                    err_of(one_of(m, "image"@)),
                    first_of(
                        err_of(one_of(m, "user"@)),
                        first_of(
                            err_of(one_of(m, "hostname"@)),
                            first_of(
                                err_of(flag_of(m, "delete"@, true)),
                                first_of(
                                    err_of(one_of(m, "container"@)),
                                    first_of(
                                        err_of(flag_of(m, "tty"@, false)),
                                        target_error(m),
                                    ),
                                ),
                            ),
                        ),
                    ),
                ),
            ),
        ),
    )
}

/// The run job that the attributes `m` describe, for a job that stands
/// under `key` in the normalized map. Attributes that the job does not
/// have are passed over.
pub open spec fn decoded_run(m: AttrModel, key: Option<Seq<char>>) -> Result<
    RunJobModel,
    ErrorModel,
> {
    match run_error(m, key) {
        Some(e) => Err(e),
        None => Ok(
            RunJobModel {
                name: name_of(m, key)->Ok_0,
                schedule: schedule_of(m)->Ok_0,
                command: command_of(m)->Ok_0,
                image: one_of(m, "image"@)->Ok_0,
                user: one_of(m, "user"@)->Ok_0,
                network: lookup(m, "network"@),
                hostname: one_of(m, "hostname"@)->Ok_0,
                delete: flag_of(m, "delete"@, true)->Ok_0,
                container: one_of(m, "container"@)->Ok_0,
                tty: flag_of(m, "tty"@, false)->Ok_0,
                volume: many_of(m, "volume"@),
                environment: many_of(m, "environment"@),
            },
        ),
    }
}

impl RunJobInfo {
    /// Builds the job from its attributes. `key` is the key under which
    /// the job stands in the normalized map, if it stands in one: it names
    /// the job where no attribute does.
    pub fn decode(value: &Attributes, key: Option<&str>) -> (r: Result<Self, Error>)
        ensures
            match r {
                Ok(job) => decoded_run(value@, key.deep_view()) == Ok::<RunJobModel, ErrorModel>(
                    job@,
                ),
                Err(e) => decoded_run(value@, key.deep_view()) == Err::<RunJobModel, ErrorModel>(
                    e@,
                ),
            },
    {
        let name = read_name(value, key)?;
        let schedule = read_schedule(value)?;
        let command = read_command(value)?;
        let image = read_one(value, "image")?;
        let user = read_one(value, "user")?;
        let network = read_list(value, "network");
        let hostname = read_one(value, "hostname")?;
        let delete = read_flag(value, "delete", true)?;
        let container = read_one(value, "container")?;
        let tty = read_flag(value, "tty", false)?;
        let volume = read_many(value, "volume");
        let environment = read_many(value, "environment");
        if image.is_none() && container.is_none() {
            return Err(Error::bare(Fault::MissingTarget));
        }
        Ok(
            RunJobInfo {
                name,
                schedule,
                command,
                image,
                user,
                network,
                hostname,
                delete,
                container,
                tty,
                volume,
                environment,
            },
        )
    }

    /// Builds the job from its attributes alone.
    pub fn try_from(value: Attributes) -> (r: Result<Self, Error>)
        ensures
            match r {
                Ok(job) => decoded_run(value@, None) == Ok::<RunJobModel, ErrorModel>(job@),
                Err(e) => decoded_run(value@, None) == Err::<RunJobModel, ErrorModel>(e@),
            },
    {
        RunJobInfo::decode(&value, None)
    }

    /// The schedule of the job.
    pub fn get_schedule(&self) -> (r: Schedule)
        ensures
            r@ == self.schedule@,
    {
        self.schedule.clone()
    }

    /// Whether an execution may start while another is running.
    pub fn may_run_parallel(&self) -> (r: bool)
        ensures
            r,
    {
        true
    }

    /// The display string: the kind, the name and the target, joined by
    /// dots. The target is the container, or else the image.
    pub fn to_string(&self) -> (r: String)
        ensures
            r@ == display_text(
                RUN_LABEL@,
                self.name@,
                target_of(self.container.deep_view(), self.image.deep_view()),
            ),
    {
        display_string(RUN_LABEL, self.name.as_str(), display_target(&self.container, &self.image))
    }
}

/// What a run needs to know of a run job.
pub open spec fn run_unit(job: RunJobModel) -> UnitModel {
    UnitModel {
        kind: UnitKind::Container,
        command: job.command,
        image: job.image,
        container: job.container,
        user: job.user,
        network: job.network,
        hostname: job.hostname,
        delete: job.delete,
        tty: job.tty,
        volume: job.volume,
        environment: job.environment,
    }
}

impl RunJobInfo {
    /// What a run needs to know of the job.
    pub fn unit(&self) -> (r: UnitSpec<'_>)
        ensures
            r@ == run_unit(self@),
    {
        UnitSpec {
            kind: UnitKind::Container,
            command: &self.command,
            image: &self.image,
            container: &self.container,
            user: &self.user,
            network: &self.network,
            hostname: &self.hostname,
            delete: self.delete,
            tty: self.tty,
            volume: &self.volume,
            environment: &self.environment,
        }
    }

    /// Takes one step of an execution in a fresh container: given where
    /// the execution stands and what happened last, says where it stands
    /// now and what is to be done next. An execution starts at
    /// [`Progress::Idle`] with [`Event::Begin`], and is over at
    /// [`Progress::Done`].
    pub fn exec(&self, progress: Progress, event: Event) -> (r: (Progress, Action))
        ensures
            r.deep_view() == unit_step(run_unit(self@), progress.deep_view(), event.deep_view()),
    {
        self.unit().step(progress, event)
    }
}

} // verus!
