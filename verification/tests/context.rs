use cfc::context::{ApplicationContext, CliArgs, DaemonArgs, SubCommands, ValidateArgs};
use cfc::error::Fault;
use cfc::supervisor::{check_jobs, exit_code, log_level, startup_delay, Exit, LogLevel};

fn strings(items: &[&str]) -> Vec<String> {
    items.iter().map(|s| s.to_string()).collect()
}

fn daemon(prefixes: &[&str], allow_unsafe: bool, socket: Option<&str>) -> SubCommands {
    SubCommands::Daemon(DaemonArgs {
        docker: true,
        filter: None,
        socket_path: socket.map(|s| s.to_string()),
        label_prefixes: strings(prefixes),
        allow_unsafe,
    })
}

fn args(command: SubCommands, config: Option<&str>, ofelia: bool) -> CliArgs {
    CliArgs { command, config: config.map(|s| s.to_string()), ofelia, verbosity: 0 }
}

#[test]
fn context_defaults() {
    let ctx = ApplicationContext::default();
    assert!(ctx.label_prefixes.is_empty());
    assert_eq!(ctx.socket, None);
    assert!(!ctx.unsafe_labels);
    assert_eq!(ctx.config_path, "/etc/cfc.conf");
}

#[test]
fn daemon_without_options() {
    let ctx = args(daemon(&[], false, None), None, false).get_context();
    assert_eq!(ctx.config_path, "/etc/cfc.conf");
    assert_eq!(ctx.label_prefixes, strings(&["cfc"]));
    assert_eq!(ctx.socket, None);
    assert!(!ctx.unsafe_labels);
}

#[test]
fn daemon_with_options() {
    let ctx = args(daemon(&["a", "b", "a"], true, Some("/run/podman.sock")), Some("/x.yaml"), false).get_context();
    assert_eq!(ctx.config_path, "/x.yaml");
    assert_eq!(ctx.label_prefixes, strings(&["a", "b"]));
    assert_eq!(ctx.socket, Some("/run/podman.sock".to_string()));
    assert!(ctx.unsafe_labels);
}

#[test]
fn ofelia_mode_defaults() {
    let ctx = args(daemon(&[], false, None), None, true).get_context();
    assert_eq!(ctx.config_path, "/etc/ofelia.conf");
    assert_eq!(ctx.label_prefixes, strings(&["ofelia"]));
    assert!(ctx.unsafe_labels);
}

#[test]
fn ofelia_mode_with_options() {
    let ctx = args(daemon(&["cfc", "ofelia", "x"], false, None), Some("/my.ini"), true).get_context();
    assert_eq!(ctx.config_path, "/my.ini");
    assert_eq!(ctx.label_prefixes, strings(&["cfc", "ofelia", "x"]));
    assert!(ctx.unsafe_labels);
}

#[test]
fn given_prefixes_override_the_one_of_ofelia_mode() {
    let ctx = args(daemon(&["foo", "foo"], false, None), None, true).get_context();
    assert_eq!(ctx.label_prefixes, strings(&["foo"]));
    assert_eq!(ctx.config_path, "/etc/ofelia.conf");
    assert!(ctx.unsafe_labels);
    let ctx = args(daemon(&["b", "a", "b", "a", "c"], false, None), None, false).get_context();
    assert_eq!(ctx.label_prefixes, strings(&["b", "a", "c"]));
}

#[test]
fn validate_reads_the_configuration_path_alone() {
    let ctx = args(SubCommands::Validate(ValidateArgs {}), None, false).get_context();
    assert_eq!(ctx.config_path, "/etc/cfc.conf");
    assert!(ctx.label_prefixes.is_empty());
    assert!(!ctx.unsafe_labels);
    let ctx = args(SubCommands::Validate(ValidateArgs {}), None, true).get_context();
    assert_eq!(ctx.config_path, "/etc/ofelia.conf");
    assert!(ctx.label_prefixes.is_empty());
    assert!(!ctx.unsafe_labels);
    let ctx = args(SubCommands::Validate(ValidateArgs {}), Some("c.yml"), true).get_context();
    assert_eq!(ctx.config_path, "c.yml");
}

#[test]
fn empty_job_list_exits_with_one() {
    let e = check_jobs(0).unwrap_err();
    assert_eq!(e.fault, Fault::NoJobs);
    assert_eq!(e.message(), "no valid job could be found");
    assert_eq!(exit_code(Exit::NoJobs), 1);
    assert_eq!(check_jobs(1), Ok(()));
    assert_eq!(check_jobs(usize::MAX), Ok(()));
}

#[test]
fn exit_codes() {
    assert_eq!(exit_code(Exit::Signalled), 0);
    assert_eq!(exit_code(Exit::Validated), 0);
    assert_eq!(exit_code(Exit::LoadFailed), 1);
    assert_eq!(exit_code(Exit::LoopEnded), 1);
}

#[test]
fn verbosity_raises_the_log_level() {
    assert_eq!(log_level(0), LogLevel::Warn);
    assert_eq!(log_level(1), LogLevel::Info);
    assert_eq!(log_level(2), LogLevel::Debug);
    assert_eq!(log_level(3), LogLevel::Trace);
    assert_eq!(log_level(255), LogLevel::Trace);
}

#[test]
fn daemon_waits_a_second_inside_a_container() {
    assert_eq!(startup_delay(true), 1000);
    assert_eq!(startup_delay(false), 0);
}
