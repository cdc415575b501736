use cfc::attrs::{Attributes, KeyedList};
use cfc::error::Fault;
use cfc::loader::yaml::{parse_yaml, parse_yaml_events, YamlEvent};

fn strings(items: &[&str]) -> Vec<String> {
    items.iter().map(|s| s.to_string()).collect()
}

fn attributes(entries: &[(&str, &[&str])]) -> Attributes {
    let mut out: Attributes = KeyedList::new();
    for (key, values) in entries {
        out.insert(key.to_string(), strings(values));
    }
    out
}

fn scalar(text: &str) -> YamlEvent {
    YamlEvent::Scalar(text.to_string())
}

#[test]
fn yaml_mapping_declares_a_job() {
    let payload = "job-executed-on-running-container:\n    kind: job-exec\n    schedule: \"@hourly\"\n    container: my-container\n    command: touch /tmp/cfc\n";
    let map = parse_yaml(&payload.to_string()).unwrap();
    assert_eq!(map.len(), 1);
    assert_eq!(map.key_at(0), "job-executed-on-running-container");
    let expected = attributes(&[
        ("kind", &["job-exec"]),
        ("schedule", &["@hourly"]),
        ("container", &["my-container"]),
        ("command", &["touch /tmp/cfc"]),
    ]);
    assert_eq!(map.value_at(0), &expected);
}

#[test]
fn yaml_sequence_gives_a_list() {
    let payload = "a:\n  kind: job-run\n  volume:\n    - /a:/b\n    - /c:/d\n  environment: [A=1, B=2]\n  image: alpine\nb:\n  kind: job-local\n";
    let map = parse_yaml(&payload.to_string()).unwrap();
    assert_eq!(map.len(), 2);
    let expected = attributes(&[
        ("kind", &["job-run"]),
        ("volume", &["/a:/b", "/c:/d"]),
        ("environment", &["A=1", "B=2"]),
        ("image", &["alpine"]),
    ]);
    assert_eq!(map.get("a"), Some(&expected));
    assert_eq!(map.get("b"), Some(&attributes(&[("kind", &["job-local"])])));
}

#[test]
fn yaml_empty_sequence_gives_an_empty_list() {
    let map = parse_yaml(&"a:\n  environment: []\n  kind: job-exec\n".to_string()).unwrap();
    assert_eq!(map.get("a"), Some(&attributes(&[("environment", &[]), ("kind", &["job-exec"])])));
}

#[test]
fn yaml_repeated_keys_merge() {
    let events = vec![
        YamlEvent::Other,
        YamlEvent::Other,
        YamlEvent::MappingStart,
        scalar("a"),
        YamlEvent::MappingStart,
        scalar("x"),
        scalar("1"),
        scalar("x"),
        scalar("2"),
        YamlEvent::MappingEnd,
        scalar("a"),
        YamlEvent::MappingStart,
        scalar("y"),
        YamlEvent::SequenceStart,
        scalar("3"),
        scalar("4"),
        YamlEvent::SequenceEnd,
        YamlEvent::MappingEnd,
        YamlEvent::MappingEnd,
        YamlEvent::Other,
        YamlEvent::StreamEnd,
    ];
    let map = parse_yaml_events(&events).unwrap();
    assert_eq!(map.len(), 1);
    assert_eq!(map.get("a"), Some(&attributes(&[("x", &["1", "2"]), ("y", &["3", "4"])])));
}

#[test]
fn yaml_documents_add_up() {
    let map = parse_yaml(&"a:\n  kind: job-exec\n---\nb:\n  kind: job-run\n".to_string()).unwrap();
    assert_eq!(map.len(), 2);
    assert_eq!(map.key_at(0), "a");
    assert_eq!(map.key_at(1), "b");
}

#[test]
fn yaml_empty_payload_has_no_job() {
    assert!(parse_yaml(&"".to_string()).unwrap().is_empty());
    assert!(parse_yaml(&"{}\n".to_string()).unwrap().is_empty());
    assert!(parse_yaml_events(&vec![YamlEvent::StreamEnd]).unwrap().is_empty());
}

#[test]
fn yaml_too_deep_is_an_error() {
    let e = parse_yaml(&"a:\n  kind:\n    nested: value\n".to_string()).unwrap_err();
    assert_eq!(e.fault, Fault::TooDeep);
    let e = parse_yaml(&"a:\n  environment:\n    - {k: v}\n".to_string()).unwrap_err();
    assert_eq!(e.fault, Fault::TooDeep);
}

#[test]
fn yaml_misplaced_sequence_is_an_error() {
    for payload in ["- a\n- b\n", "a: [x, y]\n", "a:\n  environment: [[x]]\n", "a:\n  [k]: v\n"] {
        let e = parse_yaml(&payload.to_string()).unwrap_err();
        assert_eq!(e.fault, Fault::MisplacedSequence, "{:?}", payload);
    }
}

#[test]
fn yaml_scalar_in_place_of_a_mapping_is_an_error() {
    let e = parse_yaml(&"just a scalar\n".to_string()).unwrap_err();
    assert_eq!(e.fault, Fault::UnexpectedScalar);
    assert_eq!(e.detail, "just a scalar");
    let e = parse_yaml(&"a: b\n".to_string()).unwrap_err();
    assert_eq!(e.fault, Fault::UnexpectedScalar);
    assert_eq!(e.detail, "b");
    let e = parse_yaml(&"a:\nb:\n  kind: job-exec\n".to_string()).unwrap_err();
    assert_eq!(e.fault, Fault::UnexpectedScalar);
    assert_eq!(e.detail, "~");
}

#[test]
fn yaml_mapping_in_place_of_a_name_is_an_error() {
    let events = vec![YamlEvent::MappingStart, YamlEvent::MappingStart];
    assert_eq!(parse_yaml_events(&events).unwrap_err().fault, Fault::UnexpectedMapping);
    let e = parse_yaml(&"? {k: v}\n: x\n".to_string()).unwrap_err();
    assert_eq!(e.fault, Fault::UnexpectedMapping);
}

#[test]
fn yaml_malformed_payload_is_an_error() {
    let e = parse_yaml(&"a:\n  kind: [unclosed\n".to_string()).unwrap_err();
    assert_eq!(e.fault, Fault::YamlSyntax);
    assert!(!e.detail.is_empty());
    let e = parse_yaml(&"a:\n  kind: 'unclosed\n".to_string()).unwrap_err();
    assert_eq!(e.fault, Fault::YamlSyntax);
    let events = vec![YamlEvent::MappingStart, YamlEvent::Error("bad".to_string()), YamlEvent::StreamEnd];
    let e = parse_yaml_events(&events).unwrap_err();
    assert_eq!(e.fault, Fault::YamlSyntax);
    assert_eq!(e.detail, "bad");
}

#[test]
fn yaml_events_that_stop_short_are_an_error() {
    assert_eq!(parse_yaml_events(&vec![]).unwrap_err().fault, Fault::TruncatedStream);
    let events = vec![YamlEvent::Other, YamlEvent::MappingStart, scalar("a")];
    assert_eq!(parse_yaml_events(&events).unwrap_err().fault, Fault::TruncatedStream);
}

#[test]
fn yaml_alias_is_passed_over_with_its_node() {
    let events = vec![
        YamlEvent::MappingStart,
        scalar("a"),
        YamlEvent::MappingStart,
        scalar("kind"),
        YamlEvent::Alias,
        scalar("user"),
        scalar("root"),
        YamlEvent::MappingEnd,
        YamlEvent::MappingEnd,
        YamlEvent::StreamEnd,
    ];
    let map = parse_yaml_events(&events).unwrap();
    assert_eq!(map.get("a"), Some(&attributes(&[("kind", &[]), ("user", &["root"])])));
    // `user` keeps no value, and `tty` is read as the attribute it is
    let map = parse_yaml(&"a:\n  kind: &k job-exec\n  user: *k\n  tty: \"true\"\n".to_string()).unwrap();
    let expected = attributes(&[("kind", &["job-exec"]), ("user", &[]), ("tty", &["true"])]);
    assert_eq!(map.get("a"), Some(&expected));
}

#[test]
fn yaml_alias_in_a_sequence_adds_no_value() {
    let payload = "a:\n  kind: &k job-run\n  volume: [x, *k, y]\n  image: alpine\n";
    let map = parse_yaml(&payload.to_string()).unwrap();
    let expected = attributes(&[("kind", &["job-run"]), ("volume", &["x", "y"]), ("image", &["alpine"])]);
    assert_eq!(map.get("a"), Some(&expected));
}

#[test]
fn yaml_alias_in_place_of_a_job_leaves_the_job_empty() {
    let payload = "a: &all\n  kind: job-local\nb: *all\nc:\n  kind: job-exec\n";
    let map = parse_yaml(&payload.to_string()).unwrap();
    assert_eq!(map.len(), 3);
    assert_eq!(map.get("a"), Some(&attributes(&[("kind", &["job-local"])])));
    assert_eq!(map.get("b"), Some(&attributes(&[])));
    assert_eq!(map.get("c"), Some(&attributes(&[("kind", &["job-exec"])])));
}

#[test]
fn yaml_nothing_is_read_after_the_end() {
    let events = vec![YamlEvent::StreamEnd, scalar("x"), YamlEvent::Error("late".to_string())];
    assert!(parse_yaml_events(&events).unwrap().is_empty());
}
