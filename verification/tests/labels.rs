use cfc::attrs::{Attributes, KeyedList, NormalizedMap};
use cfc::error::{ErrorKind, Fault};
use cfc::job::JobInfo;
use cfc::loader::docker::{
    can_read_json, get_tagged_targets, ingest_label, label_filter, single, string_list_or_raw,
    Container, JsonShape,
};
use cfc::loader::map_to_job;

fn strings(items: &[&str]) -> Vec<String> {
    items.iter().map(|s| s.to_string()).collect()
}

fn container(id: &str, labels: &[(&str, &str)]) -> Container {
    Container {
        id: id.to_string(),
        labels: labels.iter().map(|(k, v)| (k.to_string(), v.to_string())).collect(),
    }
}

fn attributes(entries: &[(&str, &[&str])]) -> Attributes {
    let mut out: Attributes = KeyedList::new();
    for (key, values) in entries {
        out.insert(key.to_string(), strings(values));
    }
    out
}

fn scan(prefixes: &[&str], allow_unsafe: bool, containers: Vec<Container>) -> Result<NormalizedMap, cfc::error::Error> {
    let listings: Vec<Option<Vec<Container>>> = prefixes.iter().map(|_| Some(containers.clone())).collect();
    get_tagged_targets(&listings, &strings(prefixes), allow_unsafe)
}

#[test]
fn label_declares_an_exec_job() {
    let c1 = container("c1", &[
        ("cfc.enabled", "true"),
        ("cfc.job-exec.hello.schedule", "@every 5s"),
        ("cfc.job-exec.hello.command", "echo hi"),
    ]);
    let map = scan(&["cfc"], false, vec![c1]).unwrap();
    assert_eq!(map.len(), 1);
    assert_eq!(map.key_at(0), "c1_job-exec_hello");
    let expected = attributes(&[
        ("kind", &["job-exec"]),
        ("name", &["hello"]),
        ("container", &["c1"]),
        ("schedule", &["@every 5s"]),
        ("command", &["echo hi"]),
    ]);
    assert_eq!(map.value_at(0), &expected);
    let jobs = map_to_job(map).unwrap();
    assert_eq!(jobs.len(), 1);
    match &jobs[0] {
        JobInfo::ExecJob(job) => {
            assert_eq!(job.name, "hello");
            assert_eq!(job.container, "c1");
            assert_eq!(job.command, "echo hi");
            assert_eq!(job.schedule.as_str(), "*/5 * * * * *");
            assert_eq!(job.user, None);
            assert!(!job.tty);
            assert!(job.environment.is_empty());
        }
        other => panic!("not an exec job: {:?}", other),
    }
}

#[test]
fn two_kinds_under_one_job_key_conflict() {
    // Both labels name the job `c_job-run_a_b`: once as the job `a_b` of the kind
    // `job-run`, once as the job `b` of the kind `job-run_a`.
    let c = container("c", &[
        ("cfc.job-run.a_b.schedule", "@hourly"),
        ("ofelia.job-run_a.b.schedule", "@hourly"),
    ]);
    let e = scan(&["cfc", "ofelia"], false, vec![c]).unwrap_err();
    assert_eq!(e.fault, Fault::ConflictingKinds);
    assert_eq!(e.fault.text(), "conflicting cron types");
    assert_eq!(e.detail, "ofelia.job-run_a.b.schedule");
    assert_eq!(e.kind(), ErrorKind::Config);
}

#[test]
fn two_kinds_under_one_job_name_are_two_jobs() {
    // The key of a job holds its kind, so these are the jobs `c_job-run_j` and
    // `c_job-exec_j`.
    let c = container("c", &[
        ("cfc.job-run.j.schedule", "@hourly"),
        ("ofelia.job-exec.j.schedule", "@hourly"),
    ]);
    let map = scan(&["cfc", "ofelia"], false, vec![c]).unwrap();
    assert_eq!(map.len(), 2);
    assert_eq!(map.key_at(0), "c_job-run_j");
    assert_eq!(map.key_at(1), "c_job-exec_j");
    assert_eq!(map.value_at(0).get("kind"), Some(&strings(&["job-run"])));
    assert_eq!(map.value_at(1).get("kind"), Some(&strings(&["job-exec"])));
}

#[test]
fn json_array_environment_gives_its_items() {
    let c = container("c", &[("cfc.job-exec.j.environment", "[\"A=1\",\"B=2\"]")]);
    let map = scan(&["cfc"], false, vec![c]).unwrap();
    assert_eq!(map.value_at(0).get("environment"), Some(&strings(&["A=1", "B=2"])));
}

#[test]
fn bare_environment_gives_one_value() {
    let c = container("c", &[("cfc.job-exec.j.environment", "A=1")]);
    let map = scan(&["cfc"], false, vec![c]).unwrap();
    assert_eq!(map.value_at(0).get("environment"), Some(&strings(&["A=1"])));
}

#[test]
fn json_array_is_read_for_volume_and_network_too() {
    let long = "a-string-that-is-longer-than-thirty-bytes-by-far:/data";
    let c = container("c", &[
        ("cfc.job-run.j.volume", &format!("[\"/a:/b\", \"{}\"]", long)),
        ("cfc.job-run.j.network", "[\"net\"]"),
        ("cfc.job-run.j.command", "[\"not\", \"read\"]"),
    ]);
    let map = scan(&["cfc"], false, vec![c]).unwrap();
    let info = map.value_at(0);
    assert_eq!(info.get("volume"), Some(&strings(&["/a:/b", long])));
    assert_eq!(info.get("network"), Some(&strings(&["net"])));
    assert_eq!(info.get("command"), Some(&strings(&["[\"not\", \"read\"]"])));
}

#[test]
fn malformed_json_degrades_to_the_raw_value() {
    for raw in ["[\"A=1\"", "{\"A\": 1}", "[1, 2]", "[\"a\", 2]", "[[\"a\"]]", "\"a\"", "null", "", "[\"a\",]", "A=[1]"] {
        let c = container("c", &[("cfc.job-exec.j.environment", raw)]);
        let map = scan(&["cfc"], false, vec![c]).unwrap();
        assert_eq!(map.value_at(0).get("environment"), Some(&strings(&[raw])), "{:?}", raw);
    }
}

#[test]
fn empty_json_array_gives_no_value() {
    let c = container("c", &[("cfc.job-exec.j.environment", "[]")]);
    let map = scan(&["cfc"], false, vec![c]).unwrap();
    assert_eq!(map.value_at(0).get("environment"), Some(&strings(&[])));
}

#[test]
fn json_fallback_from_the_parsed_shape() {
    assert_eq!(string_list_or_raw(None, "x"), strings(&["x"]));
    assert_eq!(string_list_or_raw(Some(JsonShape::Other), "x"), strings(&["x"]));
    let mixed = JsonShape::Array(vec![Some("a".to_string()), None]);
    assert_eq!(string_list_or_raw(Some(mixed), "x"), strings(&["x"]));
    let texts = JsonShape::Array(vec![Some("a".to_string()), Some("b".to_string())]);
    assert_eq!(string_list_or_raw(Some(texts), "x"), strings(&["a", "b"]));
    assert_eq!(string_list_or_raw(Some(JsonShape::Array(vec![])), "x"), strings(&[]));
    assert_eq!(single("x"), strings(&["x"]));
}

#[test]
fn local_job_in_labels_is_skipped_unless_allowed() {
    let c = container("c", &[
        ("cfc.job-local.x.command", "rm -rf /"),
        ("cfc.job-local.x.schedule", "@hourly"),
    ]);
    let map = scan(&["cfc"], false, vec![c.clone()]).unwrap();
    assert!(map.is_empty());
    assert_eq!(map_to_job(map).unwrap().len(), 0);

    let map = scan(&["cfc"], true, vec![c]).unwrap();
    assert_eq!(map.len(), 1);
    assert_eq!(map.key_at(0), "c_job-local_x");
    let expected = attributes(&[
        ("kind", &["job-local"]),
        ("name", &["x"]),
        ("command", &["rm -rf /"]),
        ("schedule", &["@hourly"]),
    ]);
    assert_eq!(map.value_at(0), &expected);
}

#[test]
fn labels_without_four_segments_are_ignored() {
    let c = container("c", &[
        ("cfc.enabled", "true"),
        ("cfc", "x"),
        ("cfc.job-exec.hello", "x"),
        ("cfc.job-exec.hello.schedule.extra", "x"),
        ("cfc.job-exec.hello.", "x"),
        ("com.docker.compose.project", "x"),
        ("", "x"),
        ("...", "x"),
    ]);
    let map = scan(&["cfc"], false, vec![c]).unwrap();
    // `cfc.job-exec.hello.` has four segments, the last of them empty.
    assert_eq!(map.len(), 1);
    assert_eq!(map.key_at(0), "c_job-exec_hello");
    assert_eq!(map.value_at(0).get(""), Some(&strings(&["x"])));
    assert_eq!(map.value_at(0).len(), 4);
}

#[test]
fn labels_of_other_prefixes_are_ignored() {
    let c = container("c", &[
        ("ofelia.job-exec.hello.schedule", "@hourly"),
        ("cfcx.job-exec.hello.schedule", "@hourly"),
    ]);
    assert!(scan(&["cfc"], false, vec![c.clone()]).unwrap().is_empty());
    assert_eq!(scan(&["cfc", "ofelia"], false, vec![c]).unwrap().len(), 1);
}

#[test]
fn one_label_at_a_time() {
    let jobs: NormalizedMap = KeyedList::new();
    let prefixes = strings(&["cfc"]);
    let mut log = Vec::new();
    let jobs = ingest_label(jobs, &prefixes, false, "c", "cfc.job-run.j.image", "alpine", &mut log).unwrap();
    let jobs = ingest_label(jobs, &prefixes, false, "c", "other.label", "x", &mut log).unwrap();
    let jobs = ingest_label(jobs, &prefixes, false, "d", "cfc.job-run.j.image", "busybox", &mut log).unwrap();
    assert!(log.is_empty());
    assert_eq!(jobs.len(), 2);
    assert_eq!(jobs.get("c_job-run_j").unwrap().get("image"), Some(&strings(&["alpine"])));
    assert_eq!(jobs.get("d_job-run_j").unwrap().get("image"), Some(&strings(&["busybox"])));
    assert_eq!(jobs.get("d_job-run_j").unwrap().get("container"), Some(&strings(&["d"])));
}

#[test]
fn parameter_repeated_with_the_same_value_is_accepted() {
    let c = container("c", &[
        ("cfc.job-exec.j.schedule", "@hourly"),
        ("ofelia.job-exec.j.schedule", "@hourly"),
        ("ofelia.job-exec.j.container", "c"),
        ("ofelia.job-exec.j.name", "j"),
        ("ofelia.job-exec.j.kind", "job-exec"),
    ]);
    let map = scan(&["cfc", "ofelia"], false, vec![c]).unwrap();
    assert_eq!(map.len(), 1);
    let expected = attributes(&[
        ("kind", &["job-exec"]),
        ("name", &["j"]),
        ("container", &["c"]),
        ("schedule", &["@hourly"]),
    ]);
    assert_eq!(map.value_at(0), &expected);
}

#[test]
fn parameter_repeated_with_another_value_is_an_error() {
    let c = container("c", &[
        ("cfc.job-exec.j.schedule", "@hourly"),
        ("ofelia.job-exec.j.schedule", "@daily"),
    ]);
    let e = scan(&["cfc", "ofelia"], false, vec![c]).unwrap_err();
    assert_eq!(e.fault, Fault::ConflictingValues);
    assert_eq!(e.detail, "ofelia.job-exec.j.schedule");

    let other = container("c", &[("cfc.job-exec.j.container", "elsewhere")]);
    let e = scan(&["cfc"], false, vec![other]).unwrap_err();
    assert_eq!(e.fault, Fault::ConflictingValues);
}

#[test]
fn container_is_read_once_across_prefixes() {
    let c = container("c", &[("cfc.job-exec.j.schedule", "@hourly")]);
    let d = container("d", &[("cfc.job-exec.j.schedule", "@daily")]);
    let listings = vec![Some(vec![c.clone(), d.clone()]), Some(vec![d, c])];
    let map = get_tagged_targets(&listings, &strings(&["cfc", "ofelia"]), false).unwrap();
    assert_eq!(map.len(), 2);
    assert_eq!(map.key_at(0), "c_job-exec_j");
    assert_eq!(map.key_at(1), "d_job-exec_j");
}

#[test]
fn failed_listing_is_an_error_after_what_came_before() {
    let good = container("c", &[("cfc.job-exec.j.schedule", "@hourly")]);
    let listings = vec![Some(vec![good.clone()]), None];
    let e = get_tagged_targets(&listings, &strings(&["cfc", "ofelia"]), false).unwrap_err();
    assert_eq!(e.fault, Fault::ContainerListing);
    assert_eq!(e.detail, "ofelia");

    let bad = container("c", &[
        ("cfc.job-exec.j.schedule", "@hourly"),
        ("cfc.job-exec.j.schedule", "@daily"),
    ]);
    let listings = vec![Some(vec![bad]), None];
    let e = get_tagged_targets(&listings, &strings(&["cfc", "ofelia"]), false).unwrap_err();
    assert_eq!(e.fault, Fault::ConflictingValues);

    let listings = vec![Some(vec![good])];
    let e = get_tagged_targets(&listings, &strings(&["cfc", "ofelia"]), false).unwrap_err();
    assert_eq!(e.fault, Fault::ContainerListing);
}

#[test]
fn no_prefix_gives_no_job() {
    let listings: Vec<Option<Vec<Container>>> = vec![];
    let map = get_tagged_targets(&listings, &strings(&[]), true).unwrap();
    assert!(map.is_empty());
}

#[test]
fn enabled_label_filter() {
    assert_eq!(label_filter("cfc"), "cfc.enabled=true");
    assert_eq!(label_filter("ofelia"), "ofelia.enabled=true");
}

#[test]
fn long_array_of_strings_gives_its_items() {
    let item = "x".repeat(40_000);
    let digits = "0".repeat(40_000);
    let value = format!("[\"{}\", \"{}\", \"a\\\"{}\"]", item, digits, digits);
    assert!(value.chars().count() > 120_000);
    let c = container("c", &[("cfc.job-exec.j.volume", value.as_str())]);
    let map = scan(&["cfc"], false, vec![c]).unwrap();
    assert_eq!(map.value_at(0).get("volume"), Some(&vec![item, digits.clone(), format!("a\"{}", digits)]));
}

#[test]
fn number_with_too_many_digits_is_not_handed_to_the_parser() {
    // a fraction with more digits than the parser can count
    for zeros in [32_767usize, 32_768, 40_000] {
        let fraction = format!("[0.{}]", "0".repeat(zeros));
        let c = container("c", &[("cfc.job-exec.j.environment", fraction.as_str())]);
        let map = scan(&["cfc"], false, vec![c]).unwrap();
        assert_eq!(map.value_at(0).get("environment"), Some(&vec![fraction]));
    }
    // the string ends at the quote after the escaped backslash, and the digits follow it
    let after = format!("[\"a\\\\\", 0.{}]", "0".repeat(40_000));
    let c = container("c", &[("cfc.job-exec.j.network", after.as_str())]);
    let map = scan(&["cfc"], false, vec![c]).unwrap();
    assert_eq!(map.value_at(0).get("network"), Some(&vec![after]));
}

#[test]
fn digits_are_counted_outside_strings() {
    let run = |n: usize| "7".repeat(n);
    assert!(can_read_json(""));
    assert!(can_read_json("[\"A=1\",\"B=2\"]"));
    assert!(can_read_json(&run(32_767)));
    assert!(!can_read_json(&run(32_768)));
    assert!(can_read_json(&format!("{} {}", run(32_767), run(32_767))));
    assert!(can_read_json(&format!("{}.{}", run(32_767), run(32_767))));
    assert!(!can_read_json(&format!("[1, 0.{}, 2]", run(32_768))));
    assert!(can_read_json(&format!("\"{}\"", run(50_000))));
    assert!(can_read_json(&format!("[\"\\\"{}\"]", run(50_000))));
    assert!(!can_read_json(&format!("[\"\\\\\"{}]", run(50_000))));
    assert!(!can_read_json(&format!("\"a\"{}\"b\"", run(50_000))));
    assert!(can_read_json(&format!("\"a\"{}\"{}\"", run(5), run(50_000))));
    assert!(can_read_json(&"١".repeat(50_000)));
}

#[test]
fn malformed_json_beyond_ascii_degrades_to_the_raw_value() {
    for raw in ["é", "[é]", "[\"é\", é]", "tru€", "[\"a\"]€", "\"\\u12é\"", "[1.5e€]", "\u{feff}[\"a\"]"] {
        let c = container("c", &[("cfc.job-exec.j.environment", raw)]);
        let map = scan(&["cfc"], false, vec![c]).unwrap();
        assert_eq!(map.value_at(0).get("environment"), Some(&strings(&[raw])), "{:?}", raw);
    }
    let c = container("c", &[("cfc.job-exec.j.environment", "[\"é=ü\", \"日本\"]")]);
    let map = scan(&["cfc"], false, vec![c]).unwrap();
    assert_eq!(map.value_at(0).get("environment"), Some(&strings(&["é=ü", "日本"])));
}
