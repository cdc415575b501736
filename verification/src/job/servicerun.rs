//! Jobs that run a command in a one-shot service.
use crate::attrs::{lookup, Attributes};
use crate::error::Error;
use crate::job::common::{
    command_of, display_string, display_target, display_text, err_of, first_of, flag_of, name_of,
    one_of, read_command, read_flag, read_list, read_name, read_one, read_schedule, schedule_of,
    target_of, AttrModel, ErrorModel,
};
use crate::job::steps::{Action, Event, Progress, UnitKind};
use crate::job::unit::{unit_step, UnitModel, UnitSpec};
use crate::schedule::Schedule;
use crate::text::{clone_opt, clone_strings};
use vstd::prelude::*;

verus! {

/// The kind of the jobs that run a command in a one-shot service.
pub const SERVICE_RUN_LABEL: &'static str = "job-service-run";

/// A command to run in a service that is created for the run.
#[derive(Debug)]
pub struct ServiceRunJobInfo {
    /// The display name of the job.
    pub name: String,
    /// When the job fires.
    pub schedule: Schedule,
    /// The command, as a shell would read it.
    pub command: String,
    /// The image from which the service is created.
    pub image: Option<String>,
    /// The user as whom the command runs.
    pub user: Option<String>,
    /// The networks to which the service is attached.
    pub network: Option<Vec<String>>,
    /// Whether the service is removed after the run.
    pub delete: bool,
    /// The container after whose model the service is created.
    pub container: Option<String>,
    /// Whether the command gets a terminal.
    pub tty: bool,
}

/// The model of a [`ServiceRunJobInfo`].
pub struct ServiceRunJobModel {
    pub name: Seq<char>,
    pub schedule: Seq<char>,
    pub command: Seq<char>,
    pub image: Option<Seq<char>>,
    pub user: Option<Seq<char>>,
    pub network: Option<Seq<Seq<char>>>,
    pub delete: bool,
    pub container: Option<Seq<char>>,
    pub tty: bool,
}

impl View for ServiceRunJobInfo {
    type V = ServiceRunJobModel;

    open spec fn view(&self) -> ServiceRunJobModel {
        ServiceRunJobModel {
            name: self.name@,
            schedule: self.schedule@,
            command: self.command@,
            image: self.image.deep_view(),
            user: self.user.deep_view(),
            network: self.network.deep_view(),
            delete: self.delete,
            container: self.container.deep_view(),
            tty: self.tty,
        }
    }
}

impl Clone for ServiceRunJobInfo {
    fn clone(&self) -> (r: Self)
        ensures
            r@ == self@,
    {
        ServiceRunJobInfo {
            name: self.name.clone(),
            schedule: self.schedule.clone(),
            command: self.command.clone(),
            image: clone_opt(&self.image),
            user: clone_opt(&self.user),
            network: match &self.network {
                Some(list) => Some(clone_strings(list)),
                None => None,
            },
            delete: self.delete,
            container: clone_opt(&self.container),
            tty: self.tty,
        }
    }
}

/// The first error that the attributes of a service job hold, taking the
/// attributes in the order `name`, `schedule`, `command`, `image`, `user`,
/// `delete`, `container`, `tty`.
pub open spec fn service_error(m: AttrModel, key: Option<Seq<char>>) -> Option<ErrorModel> {
    first_of(
        err_of(name_of(m, key)),
        first_of(
            err_of(schedule_of(m)),
            first_of(
                err_of(command_of(m)),
                first_of(
                    err_of(one_of(m, "image"@)),
                    first_of(
                        err_of(one_of(m, "user"@)),
                        first_of(
                            err_of(flag_of(m, "delete"@, true)),
                            first_of(
                                err_of(one_of(m, "container"@)),
                                err_of(flag_of(m, "tty"@, false)),
                            ),
                        ),
                    ),
                ),
            ),
        ),
    )
}

/// The service job that the attributes `m` describe, for a job that stands
/// under `key` in the normalized map. Attributes that the job does not
/// have are passed over.
pub open spec fn decoded_service(m: AttrModel, key: Option<Seq<char>>) -> Result<
    ServiceRunJobModel,
    ErrorModel,
> {
    match service_error(m, key) {
        Some(e) => Err(e),
        None => Ok(
            ServiceRunJobModel {
                name: name_of(m, key)->Ok_0,
                schedule: schedule_of(m)->Ok_0,
                command: command_of(m)->Ok_0,
                image: one_of(m, "image"@)->Ok_0,
                user: one_of(m, "user"@)->Ok_0,
                network: lookup(m, "network"@),
                delete: flag_of(m, "delete"@, true)->Ok_0,
                container: one_of(m, "container"@)->Ok_0,
                tty: flag_of(m, "tty"@, false)->Ok_0,
            },
        ),
    }
}

impl ServiceRunJobInfo {
    /// Builds the job from its attributes. `key` is the key under which
    /// the job stands in the normalized map, if it stands in one: it names
    /// the job where no attribute does.
    pub fn decode(value: &Attributes, key: Option<&str>) -> (r: Result<Self, Error>)
        ensures
            match r {
                Ok(job) => decoded_service(value@, key.deep_view()) == Ok::<
                    ServiceRunJobModel,
                    ErrorModel,
                >(job@),
                Err(e) => decoded_service(value@, key.deep_view()) == Err::<
                    ServiceRunJobModel,
                    ErrorModel,
                >(e@),
            },
    {
        let name = read_name(value, key)?;
        let schedule = read_schedule(value)?;
        let command = read_command(value)?;
        let image = read_one(value, "image")?;
        let user = read_one(value, "user")?;
        let network = read_list(value, "network");
        let delete = read_flag(value, "delete", true)?;
        let container = read_one(value, "container")?;
        let tty = read_flag(value, "tty", false)?;
        Ok(
            ServiceRunJobInfo {
                name,
                schedule,
                command,
                image,
                user,
                network,
                delete,
                container,
                tty,
            },
        )
    }

    /// Builds the job from its attributes alone.
    pub fn try_from(value: Attributes) -> (r: Result<Self, Error>)
        ensures
            match r {
                Ok(job) => decoded_service(value@, None) == Ok::<ServiceRunJobModel, ErrorModel>(
                    job@,
                ),
                Err(e) => decoded_service(value@, None) == Err::<ServiceRunJobModel, ErrorModel>(
                    e@,
                ),
            },
    {
        ServiceRunJobInfo::decode(&value, None)
    }

    /// The schedule of the job.
    pub fn get_schedule(&self) -> (r: Schedule)
        ensures
            r@ == self.schedule@,
    {
        self.schedule.clone()
    }

    /// Whether an execution may start while another is running.
    pub fn may_run_parallel(&self) -> (r: bool)
        ensures
            r,
    {
        true
    }

    /// The display string: the kind, the name and the target, joined by
    /// dots. The target is the container, or else the image.
    pub fn to_string(&self) -> (r: String)
        ensures
            r@ == display_text(
                SERVICE_RUN_LABEL@,
                self.name@,
                target_of(self.container.deep_view(), self.image.deep_view()),
            ),
    {
        display_string(
            SERVICE_RUN_LABEL,
            self.name.as_str(),
            display_target(&self.container, &self.image),
        )
    }
}

/// What a run needs to know of a service job: a service has no host name
/// of its own, and the job names no volumes and no environment.
pub open spec fn service_unit(job: ServiceRunJobModel) -> UnitModel {
    UnitModel {
        kind: UnitKind::Service,
        command: job.command,
        image: job.image,
        container: job.container,
        user: job.user,
        network: job.network,
        hostname: None,
        delete: job.delete,
        tty: job.tty,
        volume: Seq::empty(),
        environment: Seq::empty(),
    }
}

impl ServiceRunJobInfo {
    /// Takes one step of an execution in a fresh service: given where the
    /// execution stands and what happened last, says where it stands now
    /// and what is to be done next. An execution starts at
    /// [`Progress::Idle`] with [`Event::Begin`], and is over at
    /// [`Progress::Done`].
    pub fn exec(&self, progress: Progress, event: Event) -> (r: (Progress, Action))
        ensures
            r.deep_view() == unit_step(
                service_unit(self@),
                progress.deep_view(),
                event.deep_view(),
            ),
    {
        let hostname: Option<String> = None;
        let none: Vec<String> = Vec::new();
        assert(none.deep_view() =~= Seq::<Seq<char>>::empty());
        let unit = UnitSpec {
            kind: UnitKind::Service,
            command: &self.command,
            image: &self.image,
            container: &self.container,
            user: &self.user,
            network: &self.network,
            hostname: &hostname,
            delete: self.delete,
            tty: self.tty,
            volume: &none,
            environment: &none,
        };
        unit.step(progress, event)
    }
}

} // verus!
