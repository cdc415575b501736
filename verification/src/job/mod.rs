//! Jobs: their typed description, their executors and their scheduler.
pub mod common;
pub mod exec;
pub mod local;
pub mod run;
pub mod scheduler;
pub mod servicerun;
pub mod steps;
pub mod unit;

pub use common::{ExecInfo, ExecutionReport, ExecutionSchedule};
pub use exec::ExecJobInfo;
pub use local::LocalJobInfo;
pub use run::RunJobInfo;
pub use servicerun::ServiceRunJobInfo;

use crate::attrs::{lookup, Attributes};
use crate::error::{Error, Fault};
use crate::job::common::{display_text, target_of, AttrModel, ErrorModel};
use crate::job::exec::{decoded_exec, ExecJobModel, EXEC_LABEL};
use crate::job::local::{decoded_local, LocalJobModel, HOST_LABEL, LOCAL_LABEL};
use crate::job::run::{decoded_run, RunJobModel, RUN_LABEL};
use crate::job::servicerun::{decoded_service, ServiceRunJobModel, SERVICE_RUN_LABEL};
use crate::notice::{Notice, Warning, WarningModel};
use crate::schedule::{cron_valid, Schedule};
use crate::text::str_eq;
use vstd::prelude::*;

verus! {

/// A job of one of the four kinds.
#[derive(Debug)]
pub enum JobInfo {
    ExecJob(Box<ExecJobInfo>),
    RunJob(Box<RunJobInfo>),
    LocalJob(Box<LocalJobInfo>),
    ServiceRunJob(Box<ServiceRunJobInfo>),
}

/// The model of a [`JobInfo`].
pub enum JobModel {
    ExecJob(ExecJobModel),
    RunJob(RunJobModel),
    LocalJob(LocalJobModel),
    ServiceRunJob(ServiceRunJobModel),
}

impl JobModel {
    /// The display name of the job.
    pub open spec fn name(self) -> Seq<char> {
        match self {
            JobModel::ExecJob(job) => job.name,
            JobModel::RunJob(job) => job.name,
            JobModel::LocalJob(job) => job.name,
            JobModel::ServiceRunJob(job) => job.name,
        }
    }

    /// The command of the job.
    pub open spec fn command(self) -> Seq<char> {
        match self {
            JobModel::ExecJob(job) => job.command,
            JobModel::RunJob(job) => job.command,
            JobModel::LocalJob(job) => job.command,
            JobModel::ServiceRunJob(job) => job.command,
        }
    }

    /// The cron expression of the job.
    pub open spec fn schedule(self) -> Seq<char> {
        match self {
            JobModel::ExecJob(job) => job.schedule,
            JobModel::RunJob(job) => job.schedule,
            JobModel::LocalJob(job) => job.schedule,
            JobModel::ServiceRunJob(job) => job.schedule,
        }
    }

    /// The kind of the job.
    pub open spec fn kind(self) -> Seq<char> {
        match self {
            JobModel::ExecJob(_) => EXEC_LABEL@,
            JobModel::RunJob(_) => RUN_LABEL@,
            JobModel::LocalJob(_) => LOCAL_LABEL@,
            JobModel::ServiceRunJob(_) => SERVICE_RUN_LABEL@,
        }
    }

    /// The display string of the job: its kind, its name and its target,
    /// joined by dots.
    pub open spec fn display(self) -> Seq<char> {
        match self {
            JobModel::ExecJob(job) => display_text(EXEC_LABEL@, job.name, job.container),
            JobModel::RunJob(job) => display_text(
                RUN_LABEL@,
                job.name,
                target_of(job.container, job.image),
            ),
            JobModel::LocalJob(job) => display_text(LOCAL_LABEL@, job.name, HOST_LABEL@),
            JobModel::ServiceRunJob(job) => display_text(
                SERVICE_RUN_LABEL@,
                job.name,
                target_of(job.container, job.image),
            ),
        }
    }
}

impl View for JobInfo {
    type V = JobModel;

    open spec fn view(&self) -> JobModel {
        match self {
            JobInfo::ExecJob(job) => JobModel::ExecJob(job@),
            JobInfo::RunJob(job) => JobModel::RunJob(job@),
            JobInfo::LocalJob(job) => JobModel::LocalJob(job@),
            JobInfo::ServiceRunJob(job) => JobModel::ServiceRunJob(job@),
        }
    }
}

impl DeepView for JobInfo {
    type V = JobModel;

    open spec fn deep_view(&self) -> JobModel {
        self@
    }
}

/// The kind that the attributes name: the last value of `kind`.
pub open spec fn kind_named(m: AttrModel) -> Result<Seq<char>, ErrorModel> {
    match lookup(m, "kind"@) {
        Some(values) => if values.len() > 0 {
            Ok(values.last())
        } else {
            Err((Fault::MissingKind, Seq::empty()))
        },
        None => Err((Fault::MissingKind, Seq::empty())),
    }
}

/// The job that the attributes `m` describe, for a job that stands under
/// `key` in the normalized map: the job of the kind that the attributes
/// name, decoded as that kind is.
pub open spec fn decoded_job(m: AttrModel, key: Option<Seq<char>>) -> Result<
    JobModel,
    ErrorModel,
> {
    match kind_named(m) {
        Err(e) => Err(e),
        Ok(kind) => if kind == EXEC_LABEL@ {
            match decoded_exec(m, key) {
                Ok(job) => Ok(JobModel::ExecJob(job)),
                Err(e) => Err(e),
            }
        } else if kind == RUN_LABEL@ {
            match decoded_run(m, key) {
                Ok(job) => Ok(JobModel::RunJob(job)),
                Err(e) => Err(e),
            }
        } else if kind == LOCAL_LABEL@ {
            match decoded_local(m, key) {
                Ok(job) => Ok(JobModel::LocalJob(job)),
                Err(e) => Err(e),
            }
        } else if kind == SERVICE_RUN_LABEL@ {
            match decoded_service(m, key) {
                Ok(job) => Ok(JobModel::ServiceRunJob(job)),
                Err(e) => Err(e),
            }
        } else {
            Err((Fault::UnsupportedKind, kind))
        },
    }
}

impl JobInfo {
    /// Builds a job from its attributes. `key` is the key under which the
    /// job stands in the normalized map, if it stands in one: it names the
    /// job where no attribute does.
    ///
    /// The kind is the last value of the attribute `kind`. It is an error
    /// where there is none or it is none of the four kinds, and where the
    /// attributes of the kind are in error.
    pub fn decode(parameters: &Attributes, key: Option<&str>) -> (r: Result<JobInfo, Error>)
        ensures
            match r {
                Ok(job) => decoded_job(parameters@, key.deep_view()) == Ok::<JobModel, ErrorModel>(
                    job@,
                ),
                Err(e) => decoded_job(parameters@, key.deep_view()) == Err::<JobModel, ErrorModel>(
                    e@,
                ),
            },
    {
        let kind = match parameters.get("kind") {
            Some(values) => {
                if values.len() == 0 {
                    return Err(Error::bare(Fault::MissingKind));
                }
                assert(values.deep_view().last() == values@[values.len() - 1]@);
                values[values.len() - 1].as_str()
            },
            None => {
                return Err(Error::bare(Fault::MissingKind));
            },
        };
        if str_eq(kind, EXEC_LABEL) {
            Ok(JobInfo::ExecJob(Box::new(ExecJobInfo::decode(parameters, key)?)))
        } else if str_eq(kind, RUN_LABEL) {
            Ok(JobInfo::RunJob(Box::new(RunJobInfo::decode(parameters, key)?)))
        } else if str_eq(kind, LOCAL_LABEL) {
            Ok(JobInfo::LocalJob(Box::new(LocalJobInfo::decode(parameters, key)?)))
        } else if str_eq(kind, SERVICE_RUN_LABEL) {
            Ok(JobInfo::ServiceRunJob(Box::new(ServiceRunJobInfo::decode(parameters, key)?)))
        } else {
            Err(Error::new(Fault::UnsupportedKind, kind))
        }
    }

    /// Builds a job from its attributes alone.
    pub fn try_from(parameters: Attributes) -> (r: Result<JobInfo, Error>)
        ensures
            match r {
                Ok(job) => decoded_job(parameters@, None) == Ok::<JobModel, ErrorModel>(job@),
                Err(e) => decoded_job(parameters@, None) == Err::<JobModel, ErrorModel>(e@),
            },
    {
        JobInfo::decode(&parameters, None)
    }

    /// The name of the job.
    pub fn name(&self) -> (r: &String)
        ensures
            r@ == self@.name(),
    {
        match self {
            JobInfo::ExecJob(job) => &job.name,
            JobInfo::RunJob(job) => &job.name,
            JobInfo::LocalJob(job) => &job.name,
            JobInfo::ServiceRunJob(job) => &job.name,
        }
    }

    /// The command executed when the job fires.
    pub fn command(&self) -> (r: &String)
        ensures
            r@ == self@.command(),
    {
        match self {
            JobInfo::ExecJob(job) => &job.command,
            JobInfo::RunJob(job) => &job.command,
            JobInfo::LocalJob(job) => &job.command,
            JobInfo::ServiceRunJob(job) => &job.command,
        }
    }

    /// The schedule on which the job fires.
    pub fn schedule(&self) -> (r: &Schedule)
        ensures
            r@ == self@.schedule(),
    {
        match self {
            JobInfo::ExecJob(job) => &job.schedule,
            JobInfo::RunJob(job) => &job.schedule,
            JobInfo::LocalJob(job) => &job.schedule,
            JobInfo::ServiceRunJob(job) => &job.schedule,
        }
    }

    /// The kind of the job.
    pub fn kind(&self) -> (r: &str)
        ensures
            r@ == self@.kind(),
    {
        match self {
            JobInfo::ExecJob(_) => EXEC_LABEL,
            JobInfo::RunJob(_) => RUN_LABEL,
            JobInfo::LocalJob(_) => LOCAL_LABEL,
            JobInfo::ServiceRunJob(_) => SERVICE_RUN_LABEL,
        }
    }

    /// Whether an execution of the job may start while another is running.
    pub fn may_run_parallel(&self) -> (r: bool)
        ensures
            r,
    {
        match self {
            JobInfo::ExecJob(job) => job.may_run_parallel(),
            JobInfo::RunJob(job) => job.may_run_parallel(),
            JobInfo::LocalJob(job) => job.may_run_parallel(),
            JobInfo::ServiceRunJob(job) => job.may_run_parallel(),
        }
    }

    /// The display string of the job.
    pub fn to_string(&self) -> (r: String)
        ensures
            r@ == self@.display(),
    {
        match self {
            JobInfo::ExecJob(job) => job.to_string(),
            JobInfo::RunJob(job) => job.to_string(),
            JobInfo::LocalJob(job) => job.to_string(),
            JobInfo::ServiceRunJob(job) => job.to_string(),
        }
    }
}

/// Whether two sets of attributes say the same of a job: they hold the
/// same values under every name but `name`, and give the job the same
/// name, from the attribute or from the key under which the job stands.
pub open spec fn same_content(
    a: AttrModel,
    a_key: Option<Seq<char>>,
    b: AttrModel,
    b_key: Option<Seq<char>>,
) -> bool {
    &&& forall|k: Seq<char>| k != "name"@ ==> lookup(a, k) == lookup(b, k)
    &&& crate::job::common::name_of(a, a_key) == crate::job::common::name_of(b, b_key)
}

/// No attribute that a decoder reads besides the name is called `name`.
proof fn lemma_not_name()
    ensures
        "kind"@ != "name"@,
        "schedule"@ != "name"@,
        "command"@ != "name"@,
        "container"@ != "name"@,
        "user"@ != "name"@,
        "tty"@ != "name"@,
        "environment"@ != "name"@,
        "image"@ != "name"@,
        "hostname"@ != "name"@,
        "delete"@ != "name"@,
        "network"@ != "name"@,
        "volume"@ != "name"@,
        "dir"@ != "name"@,
{
    reveal_strlit("name");
    reveal_strlit("kind");
    reveal_strlit("schedule");
    reveal_strlit("command");
    reveal_strlit("container");
    reveal_strlit("user");
    reveal_strlit("tty");
    reveal_strlit("environment");
    reveal_strlit("image");
    reveal_strlit("hostname");
    reveal_strlit("delete");
    reveal_strlit("network");
    reveal_strlit("volume");
    reveal_strlit("dir");
    assert("kind"@[0] != "name"@[0]);
    assert("user"@[0] != "name"@[0]);
    assert("schedule"@.len() != "name"@.len());
    assert("command"@.len() != "name"@.len());
    assert("container"@.len() != "name"@.len());
    assert("tty"@.len() != "name"@.len());
    assert("environment"@.len() != "name"@.len());
    assert("image"@.len() != "name"@.len());
    assert("hostname"@.len() != "name"@.len());
    assert("delete"@.len() != "name"@.len());
    assert("network"@.len() != "name"@.len());
    assert("volume"@.len() != "name"@.len());
    assert("dir"@.len() != "name"@.len());
}

/// Attributes that say the same hold the same values under every name
/// that a decoder reads.
proof fn lemma_same_reads(
    a: AttrModel,
    a_key: Option<Seq<char>>,
    b: AttrModel,
    b_key: Option<Seq<char>>,
)
    requires
        same_content(a, a_key, b, b_key),
    ensures
        lookup(a, "kind"@) == lookup(b, "kind"@),
        lookup(a, "schedule"@) == lookup(b, "schedule"@),
        lookup(a, "command"@) == lookup(b, "command"@),
        lookup(a, "container"@) == lookup(b, "container"@),
        lookup(a, "user"@) == lookup(b, "user"@),
        lookup(a, "tty"@) == lookup(b, "tty"@),
        lookup(a, "environment"@) == lookup(b, "environment"@),
        lookup(a, "image"@) == lookup(b, "image"@),
        lookup(a, "hostname"@) == lookup(b, "hostname"@),
        lookup(a, "delete"@) == lookup(b, "delete"@),
        lookup(a, "network"@) == lookup(b, "network"@),
        lookup(a, "volume"@) == lookup(b, "volume"@),
        lookup(a, "dir"@) == lookup(b, "dir"@),
{
    lemma_not_name();
}

/// Attributes that say the same decode to the same job, whatever the
/// order of the attributes, and whether the name comes from an attribute
/// or from the key of the job.
pub proof fn lemma_decode_by_content(
    a: AttrModel,
    a_key: Option<Seq<char>>,
    b: AttrModel,
    b_key: Option<Seq<char>>,
)
    requires
        same_content(a, a_key, b, b_key),
    ensures
        decoded_job(a, a_key) == decoded_job(b, b_key),
{
    lemma_same_reads(a, a_key, b, b_key);
    assert(decoded_exec(a, a_key) == decoded_exec(b, b_key));
    assert(decoded_run(a, a_key) == decoded_run(b, b_key));
    assert(decoded_local(a, a_key) == decoded_local(b, b_key));
    assert(decoded_service(a, a_key) == decoded_service(b, b_key));
}

/// What holds of every job: its command is not empty, its schedule is a
/// cron expression, and a run job names an image or a container.
pub open spec fn job_sound(job: JobModel) -> bool {
    &&& job.command().len() > 0
    &&& cron_valid(job.schedule())
    &&& job matches JobModel::RunJob(run) ==> run.image is Some || run.container is Some
}

/// Every job that is decoded is sound.
pub proof fn lemma_decoded_job_is_sound(m: AttrModel, key: Option<Seq<char>>)
    ensures
        decoded_job(m, key) matches Ok(job) ==> job_sound(job),
{
}

/// Whether a job of the kind `kind` reads the attribute `name`. Every kind
/// reads `kind`, `name`, `schedule` and `command`.
pub open spec fn reads(kind: Seq<char>, name: Seq<char>) -> bool {
    if name == "kind"@ || name == "name"@ || name == "schedule"@ || name == "command"@ {
        true
    } else if kind == EXEC_LABEL@ {
        name == "container"@ || name == "user"@ || name == "tty"@ || name == "environment"@
    } else if kind == RUN_LABEL@ {
        name == "image"@ || name == "user"@ || name == "network"@ || name == "hostname"@ || name
            == "delete"@ || name == "container"@ || name == "tty"@ || name == "volume"@ || name
            == "environment"@
    } else if kind == LOCAL_LABEL@ {
        name == "dir"@ || name == "environment"@
    } else if kind == SERVICE_RUN_LABEL@ {
        name == "image"@ || name == "user"@ || name == "network"@ || name == "delete"@ || name
            == "container"@ || name == "tty"@
    } else {
        false
    }
}

/// Whether `kind` is one of the four kinds of job.
pub open spec fn is_kind(kind: Seq<char>) -> bool {
    kind == EXEC_LABEL@ || kind == RUN_LABEL@ || kind == LOCAL_LABEL@ || kind == SERVICE_RUN_LABEL@
}

/// A warning for each attribute that a job of the kind `kind` does not
/// read, in the order of the attributes.
pub open spec fn unused(kind: Seq<char>, m: AttrModel) -> Seq<WarningModel>
    decreases m.len(),
{
    if m.len() == 0 {
        Seq::empty()
    } else {
        let before = unused(kind, m.drop_last());
        if reads(kind, m.last().0) {
            before
        } else {
            before.push((Notice::UnusedAttribute, m.last().0))
        }
    }
}

/// A warning where the attributes name several kinds.
pub open spec fn several_kinds(m: AttrModel) -> Seq<WarningModel> {
    match lookup(m, "kind"@) {
        Some(kinds) => if kinds.len() > 1 {
            seq![(Notice::SeveralKinds, Seq::<char>::empty())]
        } else {
            Seq::empty()
        },
        None => Seq::empty(),
    }
}

/// What there is to remark on the attributes of a job: that they name
/// several kinds, and each attribute that the kind of the job does not
/// read. Attributes without one of the four kinds give no remark: they are
/// in error.
pub open spec fn job_notices(m: AttrModel) -> Seq<WarningModel> {
    match kind_named(m) {
        Ok(kind) => if is_kind(kind) {
            several_kinds(m) + unused(kind, m)
        } else {
            Seq::empty()
        },
        Err(_) => Seq::empty(),
    }
}

/// Whether a job of the kind `kind` reads the attribute `name`.
fn is_read(kind: &str, name: &str) -> (r: bool)
    ensures
        r == reads(kind@, name@),
{
    if str_eq(name, "kind") || str_eq(name, "name") || str_eq(name, "schedule") || str_eq(
        name,
        "command",
    ) {
        true
    } else if str_eq(kind, EXEC_LABEL) {
        str_eq(name, "container") || str_eq(name, "user") || str_eq(name, "tty") || str_eq(
            name,
            "environment",
        )
    } else if str_eq(kind, RUN_LABEL) {
        str_eq(name, "image") || str_eq(name, "user") || str_eq(name, "network") || str_eq(
            name,
            "hostname",
        ) || str_eq(name, "delete") || str_eq(name, "container") || str_eq(name, "tty") || str_eq(
            name,
            "volume",
        ) || str_eq(name, "environment")
    } else if str_eq(kind, LOCAL_LABEL) {
        str_eq(name, "dir") || str_eq(name, "environment")
    } else if str_eq(kind, SERVICE_RUN_LABEL) {
        str_eq(name, "image") || str_eq(name, "user") || str_eq(name, "network") || str_eq(
            name,
            "delete",
        ) || str_eq(name, "container") || str_eq(name, "tty")
    } else {
        false
    }
}

impl JobInfo {
    /// What there is to remark on the attributes of a job that is decoded
    /// all the same: that they name several kinds, and the attributes that
    /// the kind of the job does not read.
    pub fn warnings(parameters: &Attributes) -> (r: Vec<Warning>)
        ensures
            r.deep_view() == job_notices(parameters@),
    {
        let mut out: Vec<Warning> = Vec::new();
        assert(out.deep_view() =~= Seq::<WarningModel>::empty());
        let kind = match parameters.get("kind") {
            Some(kinds) => {
                if kinds.len() == 0 {
                    return out;
                }
                assert(kinds.deep_view().last() == kinds@[kinds.len() - 1]@);
                if kinds.len() > 1 {
                    out.push(Warning::new(Notice::SeveralKinds, ""));
                    assert(out.deep_view() =~= seq![(Notice::SeveralKinds, ""@)]);
                    assert(""@ =~= Seq::<char>::empty()) by {
                        reveal_strlit("");
                    }
                }
                kinds[kinds.len() - 1].as_str()
            },
            None => {
                return out;
            },
        };
        if !(str_eq(kind, EXEC_LABEL) || str_eq(kind, RUN_LABEL) || str_eq(kind, LOCAL_LABEL)
            || str_eq(kind, SERVICE_RUN_LABEL)) {
            let none: Vec<Warning> = Vec::new();
            assert(none.deep_view() =~= Seq::<WarningModel>::empty());
            return none;
        }
        let ghost first = out.deep_view();
        let ghost m = parameters@;
        let n = parameters.len();
        let mut i: usize = 0;
        assert(m.take(0) =~= Seq::<(Seq<char>, Seq<Seq<char>>)>::empty());
        assert(out.deep_view() =~= first + unused(kind@, m.take(0)));
        while i < n
            invariant
                i <= n,
                n == m.len(),
                m == parameters@,
                first == several_kinds(m),
                out.deep_view() == first + unused(kind@, m.take(i as int)),
            decreases n - i,
        {
            let name = parameters.key_at(i);
            proof {
                assert(m.take(i + 1).drop_last() =~= m.take(i as int));
                assert(m.take(i + 1).last() == m[i as int]);
            }
            if !is_read(kind, name.as_str()) {
                let ghost before = out.deep_view();
                out.push(Warning::new(Notice::UnusedAttribute, name.as_str()));
                assert(out.deep_view() =~= before.push((Notice::UnusedAttribute, name@)));
                assert(out.deep_view() =~= first + unused(kind@, m.take(i + 1)));
            }
            i += 1;
        }
        assert(m.take(n as int) =~= m);
        out
    }
}

} // verus!
