use cfc::attrs::{Attributes, KeyedList, NormalizedMap};
use cfc::error::{ErrorKind, Fault};
use cfc::job::{ExecJobInfo, JobInfo, LocalJobInfo, RunJobInfo, ServiceRunJobInfo};
use cfc::loader::{display_strings, map_to_job};

fn strings(items: &[&str]) -> Vec<String> {
    items.iter().map(|s| s.to_string()).collect()
}

fn attributes(entries: &[(&str, &[&str])]) -> Attributes {
    let mut out: Attributes = KeyedList::new();
    for (key, values) in entries {
        out.insert(key.to_string(), strings(values));
    }
    out
}

fn with(base: &[(&str, &[&str])], key: &str, values: &[&str]) -> Attributes {
    let mut out = attributes(base);
    out.insert(key.to_string(), strings(values));
    out
}

fn without(base: &[(&str, &[&str])], key: &str) -> Attributes {
    let mut out = attributes(base);
    out.remove(key);
    out
}

const EXEC: &[(&str, &[&str])] = &[
    ("kind", &["job-exec"]),
    ("name", &["backup"]),
    ("schedule", &["@every 10m"]),
    ("command", &["pg_dump -U postgres db"]),
    ("container", &["db"]),
];

const RUN: &[(&str, &[&str])] = &[
    ("kind", &["job-run"]),
    ("name", &["report"]),
    ("schedule", &["0 6 * * *"]),
    ("command", &["make report"]),
    ("image", &["alpine:latest"]),
];

const LOCAL: &[(&str, &[&str])] = &[
    ("kind", &["job-local"]),
    ("name", &["example_job"]),
    ("command", &["echo 3"]),
    ("schedule", &["@hourly"]),
];

const SERVICE: &[(&str, &[&str])] = &[
    ("kind", &["job-service-run"]),
    ("name", &["swarm"]),
    ("schedule", &["@daily"]),
    ("command", &["true"]),
];

#[test]
fn local_job_from_attributes() {
    let job = JobInfo::try_from(attributes(LOCAL)).unwrap();
    match &job {
        JobInfo::LocalJob(l) => {
            assert_eq!(l.name, "example_job");
            assert_eq!(l.command, "echo 3");
            assert_eq!(l.schedule.as_str(), "@hourly");
            assert_eq!(l.dir, None);
            assert!(l.environment.is_empty());
        }
        _ => panic!("The generated job does not have the expected type"),
    }
    assert_eq!(job.name(), "example_job");
    assert_eq!(job.command(), "echo 3");
    assert_eq!(job.schedule().as_str(), "@hourly");
    assert_eq!(job.kind(), "job-local");
    assert!(job.may_run_parallel());
    assert_eq!(job.to_string(), "job-local.example_job.CFC_HOST");
}

#[test]
fn exec_job_from_attributes() {
    let mut attrs = attributes(EXEC);
    attrs.insert("user".to_string(), strings(&["postgres"]));
    attrs.insert("tty".to_string(), strings(&["true"]));
    attrs.insert("environment".to_string(), strings(&["A=1", "B=2"]));
    attrs.insert("comment".to_string(), strings(&["not an attribute", "of the job"]));
    let job = ExecJobInfo::try_from(attrs).unwrap();
    assert_eq!(job.name, "backup");
    assert_eq!(job.schedule.as_str(), "0 */10 * * * *");
    assert_eq!(job.command, "pg_dump -U postgres db");
    assert_eq!(job.container, "db");
    assert_eq!(job.user, Some("postgres".to_string()));
    assert!(job.tty);
    assert_eq!(job.environment, strings(&["A=1", "B=2"]));
    assert_eq!(job.to_string(), "job-exec.backup.db");
    assert_eq!(job.get_schedule(), job.schedule);
    assert!(job.may_run_parallel());
    let copy = job.clone();
    assert_eq!(copy.name, job.name);
    assert_eq!(copy.environment, job.environment);
}

#[test]
fn run_job_from_attributes() {
    let job = RunJobInfo::try_from(attributes(RUN)).unwrap();
    assert_eq!(job.name, "report");
    assert_eq!(job.image, Some("alpine:latest".to_string()));
    assert_eq!(job.container, None);
    assert_eq!(job.network, None);
    assert_eq!(job.hostname, None);
    assert!(job.delete);
    assert!(!job.tty);
    assert!(job.volume.is_empty());
    assert_eq!(job.to_string(), "job-run.report.alpine:latest");

    let mut attrs = attributes(RUN);
    attrs.insert("container".to_string(), strings(&["model"]));
    attrs.insert("delete".to_string(), strings(&["false"]));
    attrs.insert("network".to_string(), strings(&["a", "b"]));
    attrs.insert("volume".to_string(), strings(&["/a:/b"]));
    attrs.insert("hostname".to_string(), strings(&["h"]));
    let job = RunJobInfo::try_from(attrs).unwrap();
    assert!(!job.delete);
    assert_eq!(job.network, Some(strings(&["a", "b"])));
    assert_eq!(job.volume, strings(&["/a:/b"]));
    assert_eq!(job.hostname, Some("h".to_string()));
    assert_eq!(job.to_string(), "job-run.report.model");
}

#[test]
fn run_job_needs_an_image_or_a_container() {
    let e = RunJobInfo::try_from(without(RUN, "image")).unwrap_err();
    assert_eq!(e.fault, Fault::MissingTarget);
    assert_eq!(e.kind(), ErrorKind::Config);
    let mut attrs = without(RUN, "image");
    attrs.insert("container".to_string(), strings(&["model"]));
    assert!(RunJobInfo::try_from(attrs).is_ok());
}

#[test]
fn service_job_from_attributes() {
    let job = ServiceRunJobInfo::try_from(attributes(SERVICE)).unwrap();
    assert_eq!(job.name, "swarm");
    assert_eq!(job.image, None);
    assert!(job.delete);
    assert!(!job.tty);
    assert_eq!(job.to_string(), "job-service-run.swarm.UNKNOWN");
    let job = ServiceRunJobInfo::try_from(with(SERVICE, "image", &["nginx"])).unwrap();
    assert_eq!(job.to_string(), "job-service-run.swarm.nginx");
    assert!(matches!(JobInfo::try_from(attributes(SERVICE)), Ok(JobInfo::ServiceRunJob(_))));
}

#[test]
fn kind_is_required_and_the_last_one_counts() {
    let e = JobInfo::try_from(without(LOCAL, "kind")).unwrap_err();
    assert_eq!(e.fault, Fault::MissingKind);
    let e = JobInfo::try_from(with(LOCAL, "kind", &[])).unwrap_err();
    assert_eq!(e.fault, Fault::MissingKind);
    let job = JobInfo::try_from(with(EXEC, "kind", &["job-run", "job-exec"])).unwrap();
    assert_eq!(job.kind(), "job-exec");
}

#[test]
fn unknown_kind_is_an_error() {
    let e = JobInfo::try_from(with(LOCAL, "kind", &["job-remote"])).unwrap_err();
    assert_eq!(e.fault, Fault::UnsupportedKind);
    assert_eq!(e.detail, "job-remote");
    assert_eq!(e.message(), "unsupported job type: job-remote");
    assert_eq!(e.kind(), ErrorKind::Config);
    let e = JobInfo::try_from(with(LOCAL, "kind", &["Job-Local"])).unwrap_err();
    assert_eq!(e.fault, Fault::UnsupportedKind);
}

#[test]
fn required_attributes_are_required() {
    for key in ["schedule", "command", "container", "name"] {
        let e = JobInfo::try_from(without(EXEC, key)).unwrap_err();
        assert_eq!(e.fault, Fault::MissingAttribute, "{}", key);
        assert_eq!(e.detail, key);
    }
}

#[test]
fn name_falls_back_to_the_key_of_the_job() {
    let job = JobInfo::decode(&without(EXEC, "name"), Some("the key")).unwrap();
    assert_eq!(job.name(), "the key");
    let job = JobInfo::decode(&attributes(EXEC), Some("the key")).unwrap();
    assert_eq!(job.name(), "backup");
    let job = JobInfo::decode(&with(EXEC, "name", &[""]), Some("the key")).unwrap();
    assert_eq!(job.name(), "");
}

#[test]
fn single_valued_attributes_take_one_value() {
    for key in ["name", "schedule", "command", "container", "user", "tty"] {
        for values in [&[][..], &["true", "true"][..]] {
            let e = JobInfo::try_from(with(EXEC, key, values)).unwrap_err();
            assert_eq!(e.fault, Fault::TooManyValues, "{}", key);
            assert_eq!(e.detail, key);
        }
    }
    for key in ["image", "user", "hostname", "delete", "container", "tty"] {
        let e = JobInfo::try_from(with(RUN, key, &["true", "false"])).unwrap_err();
        assert_eq!(e.fault, Fault::TooManyValues, "{}", key);
    }
    let e = JobInfo::try_from(with(LOCAL, "dir", &["/a", "/b"])).unwrap_err();
    assert_eq!(e.fault, Fault::TooManyValues);
}

#[test]
fn booleans_are_true_or_false() {
    for (text, value) in [("true", true), ("false", false)] {
        let job = ExecJobInfo::try_from(with(EXEC, "tty", &[text])).unwrap();
        assert_eq!(job.tty, value);
        let job = RunJobInfo::try_from(with(RUN, "delete", &[text])).unwrap();
        assert_eq!(job.delete, value);
    }
    for text in ["True", "TRUE", "yes", "1", "", " true", "false "] {
        let e = JobInfo::try_from(with(EXEC, "tty", &[text])).unwrap_err();
        assert_eq!(e.fault, Fault::InvalidBoolean, "{:?}", text);
        assert_eq!(e.detail, text);
        let e = JobInfo::try_from(with(SERVICE, "delete", &[text])).unwrap_err();
        assert_eq!(e.fault, Fault::InvalidBoolean);
    }
}

#[test]
fn schedule_has_to_be_a_cron_expression() {
    let e = JobInfo::try_from(with(LOCAL, "schedule", &["whenever"])).unwrap_err();
    assert_eq!(e.fault, Fault::InvalidSchedule);
    assert_eq!(e.detail, "whenever");
}

#[test]
fn command_may_not_be_empty() {
    let e = JobInfo::try_from(with(LOCAL, "command", &[""])).unwrap_err();
    assert_eq!(e.fault, Fault::EmptyCommand);
    assert_eq!(e.kind(), ErrorKind::Config);
}

#[test]
fn errors_come_in_the_order_of_the_attributes() {
    let mut attrs = attributes(&[("kind", &["job-exec"])]);
    assert_eq!(JobInfo::try_from(with(&[("kind", &["job-exec"])], "tty", &["x"])).unwrap_err().detail, "name");
    attrs.insert("name".to_string(), strings(&["n"]));
    attrs.insert("tty".to_string(), strings(&["x"]));
    attrs.insert("schedule".to_string(), strings(&["bad"]));
    assert_eq!(ExecJobInfo::decode(&attrs, None).unwrap_err().fault, Fault::InvalidSchedule);
    attrs.insert("schedule".to_string(), strings(&["@daily"]));
    assert_eq!(ExecJobInfo::decode(&attrs, None).unwrap_err().detail, "command");
    attrs.insert("command".to_string(), strings(&["ls"]));
    assert_eq!(ExecJobInfo::decode(&attrs, None).unwrap_err().detail, "container");
    attrs.insert("container".to_string(), strings(&["c"]));
    assert_eq!(ExecJobInfo::decode(&attrs, None).unwrap_err().fault, Fault::InvalidBoolean);
}

#[test]
fn exec_job_default() {
    let job = ExecJobInfo::default();
    assert_eq!(job.name, "");
    assert_eq!(job.schedule.as_str(), "@hourly");
    assert_eq!(job.command, "");
    assert_eq!(job.container, "");
    assert_eq!(job.user, None);
    assert!(!job.tty);
    assert!(job.environment.is_empty());
}

#[test]
fn map_decodes_in_order_and_names_by_key() {
    let mut map: NormalizedMap = KeyedList::new();
    map.insert("first".to_string(), without(LOCAL, "name"));
    map.insert("second".to_string(), attributes(EXEC));
    map.insert("third".to_string(), attributes(RUN));
    let jobs = map_to_job(map).unwrap();
    assert_eq!(jobs.len(), 3);
    assert_eq!(jobs[0].name(), "first");
    assert_eq!(jobs[1].name(), "backup");
    assert_eq!(
        display_strings(&jobs),
        strings(&["job-local.first.CFC_HOST", "job-exec.backup.db", "job-run.report.alpine:latest"])
    );
}

#[test]
fn map_fails_with_its_first_job_in_error() {
    let mut map: NormalizedMap = KeyedList::new();
    map.insert("good".to_string(), attributes(LOCAL));
    map.insert("no schedule".to_string(), without(EXEC, "schedule"));
    map.insert("no kind".to_string(), without(RUN, "kind"));
    let e = map_to_job(map).unwrap_err();
    assert_eq!(e.fault, Fault::MissingAttribute);
    assert_eq!(e.detail, "schedule");
    let empty: NormalizedMap = KeyedList::new();
    assert!(map_to_job(empty).unwrap().is_empty());
}

#[test]
fn decoding_twice_displays_the_same() {
    let build = || {
        let mut map: NormalizedMap = KeyedList::new();
        map.insert("a".to_string(), attributes(EXEC));
        map.insert("b".to_string(), with(RUN, "container", &["model"]));
        map.insert("c".to_string(), attributes(SERVICE));
        map.insert("d".to_string(), without(LOCAL, "name"));
        map
    };
    let first = display_strings(&map_to_job(build()).unwrap());
    let second = display_strings(&map_to_job(build()).unwrap());
    assert_eq!(first, second);
    assert_eq!(
        first,
        strings(&["job-exec.backup.db", "job-run.report.model", "job-service-run.swarm.UNKNOWN", "job-local.d.CFC_HOST"])
    );
}

#[test]
fn order_of_attributes_does_not_matter() {
    let forward = attributes(EXEC);
    let mut backward: Attributes = KeyedList::new();
    for (key, values) in EXEC.iter().rev() {
        backward.insert(key.to_string(), strings(values));
    }
    let a = JobInfo::try_from(forward).unwrap();
    let b = JobInfo::try_from(backward).unwrap();
    assert_eq!(a.to_string(), b.to_string());
    assert_eq!(a.command(), b.command());
    assert_eq!(a.schedule(), b.schedule());
}

#[test]
fn error_messages() {
    let e = cfc::error::Error::new(Fault::ConflictingKinds, "a.b.c.d");
    assert_eq!(e.message(), "conflicting cron types: a.b.c.d");
    let e = cfc::error::Error::bare(Fault::MissingKind);
    assert_eq!(e.message(), "the job has no job kind");
    assert_eq!(Fault::Cancelled.kind(), ErrorKind::Cancel);
    assert_eq!(Fault::JoinFailure.kind(), ErrorKind::Fatal);
    assert_eq!(Fault::StillRunning.kind(), ErrorKind::Runtime);
    assert_eq!(Fault::NoJobs.kind(), ErrorKind::Config);
}
