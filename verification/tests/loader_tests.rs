use wait_service::cli::get_args;
use wait_service::errors::InputError;
use wait_service::handoff::{failure_exit_code, handoff_plan};
use wait_service::loader::{classify_entry, load_targets, parse_tcp_entry, ManifestEntry};
use wait_service::target::Target;

fn s(x: &str) -> String {
    String::from(x)
}

#[test]
fn parse_tcp_entry_host_and_port() {
    let t = parse_tcp_entry("localhost:27017").unwrap();
    assert_eq!(t.host, "localhost");
    assert_eq!(t.port, 27017);
}

#[test]
fn parse_tcp_entry_splits_on_last_colon() {
    let t = parse_tcp_entry("a:b:90").unwrap();
    assert_eq!(t.host, "a:b");
    assert_eq!(t.port, 90);
}

#[test]
fn parse_tcp_entry_no_colon_is_missing_port() {
    // a malformed `--tcp` entry fails input validation before any probing
    match parse_tcp_entry("noport") {
        Err(InputError::MissingPort { entry }) => assert_eq!(entry, "noport"),
        other => panic!("expected MissingPort, got {:?}", other),
    }
}

#[test]
fn parse_tcp_entry_empty_port_is_bad() {
    assert!(matches!(parse_tcp_entry("host:"), Err(InputError::BadPort { .. })));
}

#[test]
fn parse_tcp_entry_non_numeric_port_is_bad() {
    assert!(matches!(parse_tcp_entry("host:abc"), Err(InputError::BadPort { .. })));
}

#[test]
fn parse_tcp_entry_port_too_large_is_bad() {
    assert!(matches!(parse_tcp_entry("host:65536"), Err(InputError::BadPort { .. })));
    assert!(matches!(parse_tcp_entry("host:99999999999999999999"), Err(InputError::BadPort { .. })));
}

#[test]
fn parse_tcp_entry_port_boundary() {
    assert_eq!(parse_tcp_entry("host:65535").unwrap().port, 65535);
    assert_eq!(parse_tcp_entry("host:0").unwrap().port, 0);
}

#[test]
fn parse_tcp_entry_plus_sign_and_leading_zeros() {
    // the same forms the standard decimal parser accepts
    assert_eq!(parse_tcp_entry("host:+80").unwrap().port, 80);
    assert_eq!(parse_tcp_entry("host:080").unwrap().port, 80);
    assert!(matches!(parse_tcp_entry("host:+"), Err(InputError::BadPort { .. })));
    assert!(matches!(parse_tcp_entry("host:++1"), Err(InputError::BadPort { .. })));
}

#[test]
fn parse_tcp_entry_empty_host_rejected() {
    assert!(matches!(parse_tcp_entry(":80"), Err(InputError::EmptyHost { .. })));
}

#[test]
fn get_args_requires_command() {
    let r = get_args(60, vec![], vec![s("h:1")], vec![], vec![]);
    assert!(matches!(r, Err(InputError::EmptyCommand)));
}

#[test]
fn get_args_requires_a_target_source() {
    let r = get_args(60, vec![s("run")], vec![], vec![], vec![]);
    assert!(matches!(r, Err(InputError::NoTargets)));
}

#[test]
fn get_args_keeps_values() {
    let a = get_args(5, vec![s("npm"), s("start")], vec![s("localhost:27017")], vec![s("/var/run/app.sock")], vec![]).unwrap();
    assert_eq!(a.timeout, 5);
    assert_eq!(a.command, vec![s("npm"), s("start")]);
    assert_eq!(a.tcp, vec![s("localhost:27017")]);
    assert_eq!(a.uds, vec![s("/var/run/app.sock")]);
    assert!(a.json.is_empty());
}

fn entry(host: Option<&str>, port: Option<u64>, uds: Option<&str>) -> ManifestEntry {
    ManifestEntry {
        host: host.map(String::from),
        port,
        uds: uds.map(String::from),
    }
}

#[test]
fn classify_entry_tcp_shape() {
    match classify_entry(&entry(Some("db"), Some(5432), None)).unwrap() {
        Target::Tcp(t) => {
            assert_eq!(t.host, "db");
            assert_eq!(t.port, 5432);
        },
        other => panic!("expected a TCP target, got {:?}", other),
    }
}

#[test]
fn classify_entry_uds_shape() {
    match classify_entry(&entry(None, None, Some("/run/x.sock"))).unwrap() {
        Target::Uds(u) => assert_eq!(u.path, "/run/x.sock"),
        other => panic!("expected a socket target, got {:?}", other),
    }
}

#[test]
fn classify_entry_prefers_tcp_when_both_shapes_present() {
    let t = classify_entry(&entry(Some("db"), Some(1), Some("/run/x.sock"))).unwrap();
    assert!(matches!(t, Target::Tcp(_)));
}

#[test]
fn classify_entry_oversized_port_falls_back_to_uds() {
    // the TCP shape needs a port that fits 16 bits; with one that does not,
    // a present socket path still makes the entry a socket target
    let t = classify_entry(&entry(Some("db"), Some(70000), Some("/run/x.sock"))).unwrap();
    assert!(matches!(t, Target::Uds(_)));
    assert!(matches!(
        classify_entry(&entry(Some("db"), Some(70000), None)),
        Err(InputError::MalformedEntry)
    ));
}

#[test]
fn classify_entry_neither_shape_is_malformed() {
    assert!(matches!(classify_entry(&entry(None, None, None)), Err(InputError::MalformedEntry)));
    assert!(matches!(
        classify_entry(&entry(Some("db"), None, None)),
        Err(InputError::MalformedEntry)
    ));
    assert!(matches!(
        classify_entry(&entry(None, Some(80), None)),
        Err(InputError::MalformedEntry)
    ));
}

#[test]
fn classify_entry_empty_host_or_path_is_malformed() {
    assert!(matches!(
        classify_entry(&entry(Some(""), Some(80), None)),
        Err(InputError::MalformedEntry)
    ));
    assert!(matches!(
        classify_entry(&entry(None, None, Some(""))),
        Err(InputError::MalformedEntry)
    ));
}

#[test]
fn load_targets_merges_in_order() {
    let args = get_args(
        60,
        vec![s("run")],
        vec![s("a:1"), s("b:2")],
        vec![s("/run/c.sock")],
        vec![s("services.json")],
    )
    .unwrap();
    let entries = vec![entry(Some("d"), Some(4), None), entry(None, None, Some("/run/e.sock"))];
    let v = load_targets(&args, &entries, true).unwrap();
    assert_eq!(v.len(), 5);
    match &v[0] {
        Target::Tcp(t) => assert_eq!((t.host.as_str(), t.port), ("a", 1)),
        other => panic!("unexpected {:?}", other),
    }
    match &v[1] {
        Target::Tcp(t) => assert_eq!((t.host.as_str(), t.port), ("b", 2)),
        other => panic!("unexpected {:?}", other),
    }
    match &v[2] {
        Target::Uds(u) => assert_eq!(u.path, "/run/c.sock"),
        other => panic!("unexpected {:?}", other),
    }
    match &v[3] {
        Target::Tcp(t) => assert_eq!((t.host.as_str(), t.port), ("d", 4)),
        other => panic!("unexpected {:?}", other),
    }
    match &v[4] {
        Target::Uds(u) => assert_eq!(u.path, "/run/e.sock"),
        other => panic!("unexpected {:?}", other),
    }
}

#[test]
fn load_targets_rejects_malformed_tcp_entry_before_probing() {
    // the malformed entry surfaces as an input error; no target list is
    // produced, so nothing is ever spawned
    let args = get_args(60, vec![s("run")], vec![s("noport")], vec![], vec![]).unwrap();
    match load_targets(&args, &vec![], true) {
        Err(InputError::MissingPort { entry }) => assert_eq!(entry, "noport"),
        other => panic!("expected MissingPort, got {:?}", other),
    }
}

#[test]
fn load_targets_rejects_empty_socket_path() {
    let args = get_args(60, vec![s("run")], vec![], vec![s("")], vec![]).unwrap();
    assert!(matches!(load_targets(&args, &vec![], true), Err(InputError::EmptyPath)));
}

#[test]
fn load_targets_rejects_sockets_where_unsupported() {
    let args = get_args(60, vec![s("run")], vec![], vec![s("/run/a.sock")], vec![]).unwrap();
    match load_targets(&args, &vec![], false) {
        Err(InputError::UdsUnsupported { path }) => assert_eq!(path, "/run/a.sock"),
        other => panic!("expected UdsUnsupported, got {:?}", other),
    }
    // the same for a socket entry coming from a manifest
    let args = get_args(60, vec![s("run")], vec![s("a:1")], vec![], vec![]).unwrap();
    let entries = vec![entry(None, None, Some("/run/b.sock"))];
    match load_targets(&args, &entries, false) {
        Err(InputError::UdsUnsupported { path }) => assert_eq!(path, "/run/b.sock"),
        other => panic!("expected UdsUnsupported, got {:?}", other),
    }
}

#[test]
fn load_targets_all_tcp_works_without_socket_support() {
    let args = get_args(60, vec![s("run")], vec![s("a:1")], vec![], vec![]).unwrap();
    let v = load_targets(&args, &vec![entry(Some("d"), Some(4), None)], false).unwrap();
    assert_eq!(v.len(), 2);
}

#[test]
fn handoff_plan_splits_program_and_args() {
    let p = handoff_plan(vec![s("npm"), s("start"), s("--silent")]);
    assert_eq!(p.program, "npm");
    assert_eq!(p.args, vec![s("start"), s("--silent")]);
}

#[test]
fn handoff_plan_bare_program() {
    let p = handoff_plan(vec![s("true")]);
    assert_eq!(p.program, "true");
    assert!(p.args.is_empty());
}

#[test]
fn failure_exit_code_is_nonzero() {
    assert_eq!(failure_exit_code(), -1);
}
