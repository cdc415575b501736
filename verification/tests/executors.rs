use cfc::attrs::{Attributes, KeyedList};
use cfc::error::{Error, ErrorKind, Fault};
use cfc::job::common::LogFrame;
use cfc::job::local::{read_output, split_env};
use cfc::job::steps::{
    Action, CreateExecRequest, CreateUnitRequest, Ending, Event, ExecInspect, LocalCommand,
    ProcessOutput, Progress, StartExecRequest, UnitKind,
};
use cfc::job::{ExecJobInfo, ExecutionReport, JobInfo, LocalJobInfo, RunJobInfo, ServiceRunJobInfo};

fn strings(items: &[&str]) -> Vec<String> {
    items.iter().map(|s| s.to_string()).collect()
}

fn attributes(entries: &[(&str, &[&str])]) -> Attributes {
    let mut out: Attributes = KeyedList::new();
    for (key, values) in entries {
        out.insert(key.to_string(), strings(values));
    }
    out
}

fn exec_job() -> ExecJobInfo {
    ExecJobInfo::try_from(attributes(&[
        ("name", &["hello"]),
        ("schedule", &["@every 5s"]),
        ("command", &["sh -c 'echo \"hi there\"' # say hi"]),
        ("container", &["c1"]),
        ("user", &["nobody"]),
        ("tty", &["true"]),
        ("environment", &["A=1"]),
    ]))
    .unwrap()
}

fn run_job(delete: bool) -> RunJobInfo {
    RunJobInfo::try_from(attributes(&[
        ("name", &["report"]),
        ("schedule", &["@daily"]),
        ("command", &["make -j 2 report"]),
        ("image", &["alpine"]),
        ("user", &["build"]),
        ("network", &["net"]),
        ("hostname", &["h"]),
        ("volume", &["/a:/b"]),
        ("environment", &["A=1"]),
        ("delete", &[if delete { "true" } else { "false" }]),
    ]))
    .unwrap()
}

fn report(retval: i64, stdout: Option<&str>, stderr: Option<&str>) -> ExecutionReport {
    ExecutionReport { retval, stdout: stdout.map(|s| s.to_string()), stderr: stderr.map(|s| s.to_string()) }
}

fn ended(code: i64) -> ExecInspect {
    ExecInspect { running: Some(false), exit_code: Some(code) }
}

fn runtime_failure(message: &str) -> Action {
    Action::Fail(Error::new(Fault::RuntimeApi, message))
}

#[test]
fn stream_output_is_sorted_into_the_report() {
    let mut r = ExecutionReport::default();
    let frames = vec![
        LogFrame::StdOut(b"a".to_vec()),
        LogFrame::StdErr(b"x".to_vec()),
        LogFrame::StdIn(vec![0xff, 0xfe]),
        LogFrame::Console("é\n".as_bytes().to_vec()),
        LogFrame::StdErr(b"y".to_vec()),
        LogFrame::StdOut(b"b".to_vec()),
    ];
    assert_eq!(r.exhaust_stream(frames), Ok(()));
    assert_eq!(r, report(0, Some("aé\nb"), Some("xy")));
}

#[test]
fn stream_without_output_leaves_the_texts_absent() {
    let mut r = ExecutionReport::default();
    assert_eq!(r.exhaust_stream(vec![]), Ok(()));
    assert_eq!(r, report(0, None, None));
    let mut r = report(3, None, None);
    let frames = vec![LogFrame::StdOut(vec![]), LogFrame::StdIn(b"typed".to_vec()), LogFrame::StdErr(b"e".to_vec())];
    assert_eq!(r.exhaust_stream(frames), Ok(()));
    assert_eq!(r, report(3, None, Some("e")));
}

#[test]
fn stream_that_is_not_utf8_is_a_runtime_error() {
    let mut r = ExecutionReport::default();
    let frames = vec![LogFrame::StdOut(b"ok".to_vec()), LogFrame::StdErr(vec![0xc3, 0x28])];
    let e = r.exhaust_stream(frames).unwrap_err();
    assert_eq!(e.fault, Fault::InvalidOutput);
    assert_eq!(e.kind(), ErrorKind::Runtime);
    assert_eq!(r, ExecutionReport::default());
    // a character cut in two frames is not put together again
    let halves = vec![LogFrame::StdOut(vec![0xc3]), LogFrame::StdOut(vec![0xa9])];
    assert_eq!(r.exhaust_stream(halves).unwrap_err().fault, Fault::InvalidOutput);
}

#[test]
fn stream_into_a_report_with_output_is_refused() {
    for mut r in [report(0, Some("old"), None), report(0, None, Some("old"))] {
        let before = r.clone();
        let e = r.exhaust_stream(vec![LogFrame::StdOut(b"new".to_vec())]).unwrap_err();
        assert_eq!(e.fault, Fault::ReportNotEmpty);
        assert_eq!(r, before);
    }
}

#[test]
fn inspect_records_the_exit_code() {
    let mut r = report(0, Some("out"), None);
    assert_eq!(r.ingest_exec_inspect(&ended(42)), Ok(()));
    assert_eq!(r, report(42, Some("out"), None));
    assert_eq!(r.ingest_exec_inspect(&ended(-1)), Ok(()));
    assert_eq!(r.retval, -1);
}

#[test]
fn inspect_of_a_running_command_is_a_runtime_error() {
    let mut r = report(7, None, None);
    let e = r.ingest_exec_inspect(&ExecInspect { running: Some(true), exit_code: Some(0) }).unwrap_err();
    assert_eq!(e.fault, Fault::StillRunning);
    assert_eq!(e.kind(), ErrorKind::Runtime);
    assert_eq!(r, report(7, None, None));
    let e = r.ingest_exec_inspect(&ExecInspect { running: None, exit_code: Some(0) }).unwrap_err();
    assert_eq!(e.fault, Fault::StillRunning);
}

#[test]
fn inspect_without_exit_code_is_a_runtime_error() {
    let mut r = report(7, None, None);
    let e = r.ingest_exec_inspect(&ExecInspect { running: Some(false), exit_code: None }).unwrap_err();
    assert_eq!(e.fault, Fault::MissingExitCode);
    assert_eq!(e.kind(), ErrorKind::Runtime);
    assert_eq!(r, report(7, None, None));
}

#[test]
fn exec_job_runs_step_by_step() {
    let job = exec_job();
    let (progress, action) = job.exec(Progress::Idle, Event::Begin);
    assert_eq!(progress, Progress::Creating);
    assert_eq!(action, Action::CreateExec(CreateExecRequest {
        container: "c1".to_string(),
        cmd: strings(&["sh", "-c", "echo \"hi there\""]),
        env: strings(&["A=1"]),
        user: Some("nobody".to_string()),
        tty: true,
        attach_stdout: true,
        attach_stderr: true,
    }));
    let (progress, action) = job.exec(progress, Event::ExecCreated("e1".to_string()));
    assert_eq!(progress, Progress::Streaming("e1".to_string()));
    assert_eq!(action, Action::StartExec(StartExecRequest { id: "e1".to_string(), detach: false, tty: true }));
    let frames = vec![LogFrame::Console(b"hi there\r\n".to_vec())];
    let (progress, action) = job.exec(progress, Event::Output(frames));
    assert_eq!(progress, Progress::Inspecting("e1".to_string(), report(0, Some("hi there\r\n"), None)));
    assert_eq!(action, Action::InspectExec("e1".to_string()));
    let (progress, action) = job.exec(progress, Event::ExecInspected(ended(3)));
    assert_eq!(progress, Progress::Done);
    assert_eq!(action, Action::Finish(report(3, Some("hi there\r\n"), None)));
}

#[test]
fn exec_job_fails_when_the_runtime_fails() {
    let job = exec_job();
    let steps = [
        Progress::Creating,
        Progress::Streaming("e".to_string()),
        Progress::Inspecting("e".to_string(), ExecutionReport::default()),
    ];
    for progress in steps {
        let (next, action) = job.exec(progress, Event::Failed("no such container".to_string()));
        assert_eq!(next, Progress::Done);
        assert_eq!(action, runtime_failure("no such container"));
    }
}

#[test]
fn exec_job_fails_on_a_command_still_running() {
    let job = exec_job();
    let progress = Progress::Inspecting("e".to_string(), ExecutionReport::default());
    let running = ExecInspect { running: Some(true), exit_code: None };
    let (next, action) = job.exec(progress, Event::ExecInspected(running));
    assert_eq!(next, Progress::Done);
    assert_eq!(action, Action::Fail(Error::bare(Fault::StillRunning)));
}

#[test]
fn exec_job_fails_on_unreadable_output() {
    let job = exec_job();
    let output = Event::Output(vec![LogFrame::StdOut(vec![0xff])]);
    let (next, action) = job.exec(Progress::Streaming("e".to_string()), output);
    assert_eq!(next, Progress::Done);
    assert_eq!(action, Action::Fail(Error::bare(Fault::InvalidOutput)));
}

#[test]
fn exec_job_fails_loudly_when_detached() {
    let job = exec_job();
    let (next, action) = job.exec(Progress::Streaming("e".to_string()), Event::ExecDetached);
    assert_eq!(next, Progress::Done);
    assert_eq!(action, Action::Abort(Error::bare(Fault::Detached)));
    assert_eq!(Fault::Detached.kind(), ErrorKind::Fatal);
}

#[test]
fn exec_job_fails_loudly_on_an_unclosed_quote() {
    let mut job = exec_job();
    job.command = "echo 'unclosed".to_string();
    let (next, action) = job.exec(Progress::Idle, Event::Begin);
    assert_eq!(next, Progress::Done);
    assert_eq!(action, Action::Abort(Error::new(Fault::InvalidCommand, "echo 'unclosed")));
    let (next, action) = job.begin(None);
    assert_eq!(next, Progress::Done);
    assert_eq!(action, Action::Abort(Error::new(Fault::InvalidCommand, "echo 'unclosed")));
    let (next, action) = job.begin(Some(strings(&["a", "b"])));
    assert_eq!(next, Progress::Creating);
    assert!(matches!(action, Action::CreateExec(request) if request.cmd == strings(&["a", "b"])));
}

#[test]
fn events_out_of_turn_fail_loudly() {
    let job = JobInfo::ExecJob(Box::new(exec_job()));
    let out_of_turn = [
        (Progress::Idle, Event::ExecCreated("e".to_string())),
        (Progress::Idle, Event::Failed("early".to_string())),
        (Progress::Creating, Event::Begin),
        (Progress::Creating, Event::ExecInspected(ended(0))),
        (Progress::Streaming("e".to_string()), Event::ExecCreated("f".to_string())),
        (Progress::Inspecting("e".to_string(), ExecutionReport::default()), Event::Output(vec![])),
        (Progress::Spawned, Event::Begin),
        (Progress::Done, Event::Begin),
        (Progress::Done, Event::Failed("late".to_string())),
    ];
    for (progress, event) in out_of_turn {
        let (next, action) = job.exec(progress, event);
        assert_eq!(next, Progress::Done);
        assert_eq!(action, Action::Abort(Error::bare(Fault::UnexpectedEvent)));
    }
}

#[test]
fn local_environment_splits_at_the_first_equals_sign() {
    assert_eq!(split_env("KEY=VALUE"), ("KEY".to_string(), "VALUE".to_string()));
    assert_eq!(split_env("KEY="), ("KEY".to_string(), "".to_string()));
    assert_eq!(split_env("KEY"), ("KEY".to_string(), "".to_string()));
    assert_eq!(split_env("=x"), ("".to_string(), "x".to_string()));
    assert_eq!(split_env(""), ("".to_string(), "".to_string()));
}

#[test]
fn local_environment_turns_further_equals_signs_into_dots() {
    assert_eq!(split_env("OPTS=a=1"), ("OPTS".to_string(), "a.1".to_string()));
    assert_eq!(split_env("A=b=c=d"), ("A".to_string(), "b.c.d".to_string()));
    assert_eq!(split_env("A=="), ("A".to_string(), ".".to_string()));
}

#[test]
fn local_job_runs_step_by_step() {
    let job = LocalJobInfo::try_from(attributes(&[
        ("name", &["l"]),
        ("schedule", &["@hourly"]),
        ("command", &["/usr/bin/backup --all"]),
        ("dir", &["/tmp"]),
        ("environment", &["A=1", "B=x=y"]),
    ]))
    .unwrap();
    let (progress, action) = job.exec(Progress::Idle, Event::Begin);
    assert_eq!(progress, Progress::Spawned);
    assert_eq!(action, Action::Spawn(LocalCommand {
        program: "/usr/bin/backup --all".to_string(),
        env: vec![("A".to_string(), "1".to_string()), ("B".to_string(), "x.y".to_string())],
        dir: Some("/tmp".to_string()),
    }));
    assert_eq!(job.command_line().program, "/usr/bin/backup --all");
    let output = ProcessOutput { code: Some(2), stdout: b"out".to_vec(), stderr: vec![0xff] };
    let (progress, action) = job.exec(progress, Event::ProcessExited(output));
    assert_eq!(progress, Progress::Done);
    assert_eq!(action, Action::Finish(report(2, None, None)));
}

#[test]
fn local_job_without_exit_code_fails() {
    let job = LocalJobInfo::try_from(attributes(&[
        ("name", &["l"]),
        ("schedule", &["@hourly"]),
        ("command", &["sleep"]),
    ]))
    .unwrap();
    let output = ProcessOutput { code: None, stdout: vec![], stderr: vec![] };
    let (progress, action) = job.exec(Progress::Spawned, Event::ProcessExited(output));
    assert_eq!(progress, Progress::Done);
    assert_eq!(action, Action::Fail(Error::bare(Fault::MissingExitCode)));
    let (progress, action) = job.exec(Progress::Spawned, Event::Failed("not found".to_string()));
    assert_eq!(progress, Progress::Done);
    assert_eq!(action, runtime_failure("not found"));
}

#[test]
fn local_output_that_is_not_utf8_gets_a_marker() {
    assert_eq!(read_output(b"done\n".to_vec()), "done\n");
    assert_eq!(read_output("żółw".as_bytes().to_vec()), "żółw");
    assert_eq!(read_output(vec![]), "");
    assert_eq!(read_output(vec![b'a', 0xff]), "FAILED_TO_PARSE_OUTPUT");
    assert_eq!(read_output(vec![0xed, 0xa0, 0x80]), "FAILED_TO_PARSE_OUTPUT");
}

#[test]
fn run_job_runs_step_by_step_and_removes_its_container() {
    let job = run_job(true);
    let kind = UnitKind::Container;
    let (progress, action) = job.exec(Progress::Idle, Event::Begin);
    assert_eq!(progress, Progress::CreatingUnit);
    assert_eq!(action, Action::CreateUnit(CreateUnitRequest {
        kind,
        image: Some("alpine".to_string()),
        copy_of: None,
        cmd: strings(&["make", "-j", "2", "report"]),
        user: Some("build".to_string()),
        network: Some(strings(&["net"])),
        network_mode: Some("net".to_string()),
        hostname: Some("h".to_string()),
        volume: strings(&["/a:/b"]),
        env: strings(&["A=1"]),
        tty: false,
    }));
    let (progress, action) = job.exec(progress, Event::UnitCreated("u".to_string()));
    assert_eq!(progress, Progress::StartingUnit("u".to_string()));
    assert_eq!(action, Action::StartUnit(kind, "u".to_string()));
    let (progress, action) = job.exec(progress, Event::UnitStarted);
    assert_eq!(progress, Progress::ReadingLogs("u".to_string()));
    assert_eq!(action, Action::ReadLogs(kind, "u".to_string()));
    let (progress, action) = job.exec(progress, Event::Output(vec![LogFrame::StdErr(b"warn".to_vec())]));
    assert_eq!(progress, Progress::AwaitingUnit("u".to_string(), report(0, None, Some("warn"))));
    assert_eq!(action, Action::AwaitUnit(kind, "u".to_string()));
    let (progress, action) = job.exec(progress, Event::UnitExited(Some(5)));
    assert_eq!(progress, Progress::Removing("u".to_string(), Ending::Report(report(5, None, Some("warn")))));
    assert_eq!(action, Action::RemoveUnit(kind, "u".to_string()));
    let (progress, action) = job.exec(progress, Event::UnitRemoved);
    assert_eq!(progress, Progress::Done);
    assert_eq!(action, Action::Finish(report(5, None, Some("warn"))));
}

#[test]
fn run_job_keeps_its_container_when_told_to() {
    let job = run_job(false);
    let progress = Progress::AwaitingUnit("u".to_string(), report(0, Some("o"), None));
    let (progress, action) = job.exec(progress, Event::UnitExited(Some(0)));
    assert_eq!(progress, Progress::Done);
    assert_eq!(action, Action::Finish(report(0, Some("o"), None)));
    let (progress, action) = job.exec(Progress::StartingUnit("u".to_string()), Event::Failed("boom".to_string()));
    assert_eq!(progress, Progress::Done);
    assert_eq!(action, runtime_failure("boom"));
}

#[test]
fn run_job_removes_its_container_after_a_failure() {
    let job = run_job(true);
    let failing = [
        (Progress::StartingUnit("u".to_string()), Event::Failed("boom".to_string()), Error::new(Fault::RuntimeApi, "boom")),
        (Progress::ReadingLogs("u".to_string()), Event::Failed("boom".to_string()), Error::new(Fault::RuntimeApi, "boom")),
        (Progress::ReadingLogs("u".to_string()), Event::Output(vec![LogFrame::StdOut(vec![0xff])]), Error::bare(Fault::InvalidOutput)),
        (Progress::AwaitingUnit("u".to_string(), ExecutionReport::default()), Event::Failed("boom".to_string()), Error::new(Fault::RuntimeApi, "boom")),
        (Progress::AwaitingUnit("u".to_string(), ExecutionReport::default()), Event::UnitExited(None), Error::bare(Fault::MissingExitCode)),
    ];
    for (progress, event, error) in failing {
        let (progress, action) = job.exec(progress, event);
        assert_eq!(progress, Progress::Removing("u".to_string(), Ending::Error(error.clone())));
        assert_eq!(action, Action::RemoveUnit(UnitKind::Container, "u".to_string()));
        let (progress, action) = job.exec(progress, Event::UnitRemoved);
        assert_eq!(progress, Progress::Done);
        assert_eq!(action, Action::Fail(error));
    }
    // nothing was created yet: nothing to remove
    let (progress, action) = job.exec(Progress::CreatingUnit, Event::Failed("no image".to_string()));
    assert_eq!(progress, Progress::Done);
    assert_eq!(action, runtime_failure("no image"));
}

#[test]
fn run_job_reports_a_removal_that_fails() {
    let job = run_job(true);
    let good = Progress::Removing("u".to_string(), Ending::Report(report(0, None, None)));
    let (progress, action) = job.exec(good, Event::Failed("busy".to_string()));
    assert_eq!(progress, Progress::Done);
    assert_eq!(action, runtime_failure("busy"));
    let bad = Progress::Removing("u".to_string(), Ending::Error(Error::bare(Fault::MissingExitCode)));
    let (progress, action) = job.exec(bad, Event::Failed("busy".to_string()));
    assert_eq!(progress, Progress::Done);
    assert_eq!(action, Action::Fail(Error::bare(Fault::MissingExitCode)));
}

#[test]
fn service_job_creates_a_service() {
    let job = ServiceRunJobInfo::try_from(attributes(&[
        ("name", &["s"]),
        ("schedule", &["@daily"]),
        ("command", &["true"]),
        ("container", &["model"]),
        ("tty", &["true"]),
    ]))
    .unwrap();
    let (progress, action) = job.exec(Progress::Idle, Event::Begin);
    assert_eq!(progress, Progress::CreatingUnit);
    assert_eq!(action, Action::CreateUnit(CreateUnitRequest {
        kind: UnitKind::Service,
        image: None,
        copy_of: Some("model".to_string()),
        cmd: strings(&["true"]),
        user: None,
        network: None,
        network_mode: None,
        hostname: None,
        volume: vec![],
        env: vec![],
        tty: true,
    }));
    let (progress, action) = job.exec(progress, Event::UnitCreated("svc".to_string()));
    assert_eq!(progress, Progress::StartingUnit("svc".to_string()));
    assert_eq!(action, Action::StartUnit(UnitKind::Service, "svc".to_string()));
}

#[test]
fn job_takes_the_steps_of_its_kind() {
    let run = JobInfo::RunJob(Box::new(run_job(true)));
    assert!(matches!(run.exec(Progress::Idle, Event::Begin), (Progress::CreatingUnit, Action::CreateUnit(_))));
    let exec = JobInfo::ExecJob(Box::new(exec_job()));
    assert!(matches!(exec.exec(Progress::Idle, Event::Begin), (Progress::Creating, Action::CreateExec(_))));
    let local = JobInfo::try_from(attributes(&[
        ("kind", &["job-local"]),
        ("name", &["l"]),
        ("schedule", &["@hourly"]),
        ("command", &["date"]),
    ]))
    .unwrap();
    assert!(matches!(local.exec(Progress::Idle, Event::Begin), (Progress::Spawned, Action::Spawn(_))));
}

#[test]
fn report_with_a_code_other_than_zero_is_an_execution_error() {
    assert_eq!(report(0, None, None).kind(), None);
    assert_eq!(report(1, None, None).kind(), Some(ErrorKind::Exec));
    assert_eq!(report(-1, Some("out"), None).kind(), Some(ErrorKind::Exec));
}

#[test]
fn container_is_created_in_the_first_network() {
    let job = RunJobInfo::try_from(attributes(&[
        ("name", &["r"]),
        ("schedule", &["@daily"]),
        ("command", &["true"]),
        ("image", &["alpine"]),
        ("network", &["front", "back"]),
    ]))
    .unwrap();
    match job.exec(Progress::Idle, Event::Begin) {
        (Progress::CreatingUnit, Action::CreateUnit(request)) => {
            assert_eq!(request.network, Some(strings(&["front", "back"])));
            assert_eq!(request.network_mode, Some("front".to_string()));
        }
        other => panic!("not a request to create: {:?}", other),
    }
    let mut none = job.clone();
    none.network = Some(vec![]);
    match none.exec(Progress::Idle, Event::Begin) {
        (_, Action::CreateUnit(request)) => assert_eq!(request.network_mode, None),
        other => panic!("not a request to create: {:?}", other),
    }
}
