use shimkit::args::{ArgsError, Arguments};
use shimkit::bootstrap::Role;

fn strings(v: &[&str]) -> Vec<String> {
    v.iter().map(|s| s.to_string()).collect()
}

fn pairs(v: &[(&str, &str)]) -> Vec<(String, String)> {
    v.iter().map(|(k, v)| (k.to_string(), v.to_string())).collect()
}

fn parse(args: &[&str], envs: &[(&str, &str)]) -> Result<Arguments, ArgsError> {
    Arguments::parse_from(&strings(args), &pairs(envs), None, false)
}

#[test]
fn parse_all() {
    let args = [
        "-debug",
        "-id",
        "123",
        "-namespace",
        "default",
        "-publish-binary",
        "/path/to/binary",
        "-bundle",
        "bundle",
        "-address",
        "address",
        "delete",
        "abc",
        "def",
    ];

    let envs = [("TTRPC_ADDRESS", "/path/to/c8d.sock")];

    let args = parse(&args, &envs).unwrap();

    assert_eq!(args.action, "delete");
    assert!(args.debug);
    assert_eq!(args.id, "123");
    assert_eq!(args.namespace, "default");
    assert_eq!(args.publish_binary, "/path/to/binary");
    assert_eq!(args.grpc_address, "address");
    assert_eq!(args.ttrpc_address, "/path/to/c8d.sock");
    assert_eq!(args.bundle, "bundle");
}

#[test]
fn parse_flags() {
    let args = ["-id", "123", "-namespace", "default", "start"];
    let args = parse(&args, &[]).unwrap();

    assert!(!args.debug);
    assert_eq!(args.id, "123");
    assert_eq!(args.namespace, "default");
}

#[test]
fn parse_version() {
    let args = ["-v"];

    let args = parse(&args, &[]).unwrap();

    assert_eq!(args.action, "version");
}

#[test]
fn parse_keeps_trailing_arguments() {
    let args = parse(&["-id", "1", "delete", "abc", "-x", "def"], &[]).unwrap();
    assert_eq!(args.rest, strings(&["abc", "-x", "def"]));
}

#[test]
fn parse_start_not_interactive_is_launcher() {
    let args = parse(&["-id", "123", "-namespace", "default", "start"], &[]).unwrap();
    assert_eq!(args.action, "start");
    assert!(!args.is_daemon());
    assert!(!args.is_interactive());
    assert_eq!(args.role(), Role::Launcher);
}

#[test]
fn parse_start_on_terminal_runs_as_daemon() {
    let args = Arguments::parse_from(
        &strings(&["-id", "123", "start"]),
        &pairs(&[]),
        None,
        true,
    )
    .unwrap();
    assert_eq!(args.action, "daemon");
    assert!(args.is_daemon());
    assert!(args.is_interactive());
    assert_eq!(args.role(), Role::Daemon);
}

#[test]
fn parse_daemon_is_daemon_whatever_the_terminal() {
    for interactive in [false, true] {
        let args =
            Arguments::parse_from(&strings(&["daemon"]), &pairs(&[]), None, interactive).unwrap();
        assert!(args.is_daemon());
    }
}

#[test]
fn parse_delete_on_terminal_stays_delete() {
    let args =
        Arguments::parse_from(&strings(&["delete"]), &pairs(&[]), None, true).unwrap();
    assert_eq!(args.action, "delete");
    assert!(!args.is_daemon());
}

#[test]
fn parse_version_ignores_other_flags() {
    let args = parse(&["-debug", "-id", "9", "-v", "bogus"], &[("NAMESPACE", "x")]).unwrap();
    assert_eq!(args.action, "version");
    assert_eq!(args.id, "");
    assert!(!args.debug);
}

#[test]
fn parse_delete_with_bundle() {
    let args = parse(&["-namespace", "default", "-bundle", "b", "delete"], &[]).unwrap();
    assert_eq!(args.action, "delete");
    assert_eq!(args.bundle, "b");
    assert_eq!(args.namespace, "default");
}

#[test]
fn parse_defaults_without_environment() {
    let args = parse(&["start"], &[]).unwrap();
    assert_eq!(args.namespace, "default");
    assert_eq!(args.grpc_address, "/run/containerd/containerd.sock");
    assert_eq!(args.ttrpc_address, "/run/containerd/containerd.sock.ttrpc");
    assert_eq!(args.publish_binary, "containerd");
    assert_eq!(args.id, "");
    assert_eq!(args.bundle, "");
    assert_eq!(args.shim_name, "unknown");
}

#[test]
fn parse_environment_defaults_and_flags_win() {
    let envs = [("NAMESPACE", "envns"), ("GRPC_ADDRESS", "/env/grpc.sock")];
    let args = parse(&["start"], &envs).unwrap();
    assert_eq!(args.namespace, "envns");
    assert_eq!(args.grpc_address, "/env/grpc.sock");
    assert_eq!(args.ttrpc_address, "/env/grpc.sock.ttrpc");

    let args = parse(&["-namespace", "flagns", "-address", "/flag.sock", "start"], &envs).unwrap();
    assert_eq!(args.namespace, "flagns");
    assert_eq!(args.grpc_address, "/flag.sock");
    assert_eq!(args.ttrpc_address, "/flag.sock.ttrpc");
}

#[test]
fn parse_last_environment_binding_wins() {
    let args = parse(&["start"], &[("NAMESPACE", "a"), ("NAMESPACE", "b")]).unwrap();
    assert_eq!(args.namespace, "b");
}

#[test]
fn parse_unknown_flag_fails() {
    assert!(matches!(parse(&["-nope", "start"], &[]), Err(ArgsError::Flag(_))));
}

#[test]
fn parse_flag_without_value_fails() {
    assert!(matches!(parse(&["-id"], &[]), Err(ArgsError::Flag(_))));
}

#[test]
fn parse_no_action_fails() {
    assert!(matches!(parse(&["-id", "1"], &[]), Err(ArgsError::NoAction)));
}

#[test]
fn parse_unsupported_action_fails() {
    match parse(&["stop"], &[]) {
        Err(ArgsError::UnsupportedAction(a)) => assert_eq!(a, "stop"),
        other => panic!("unexpected outcome: {other:?}"),
    }
}

#[test]
fn parse_is_deterministic() {
    let argv = ["-debug", "-id", "7", "delete", "x"];
    let envs = [("TTRPC_ADDRESS", "/t.sock")];
    let a = parse(&argv, &envs).unwrap();
    let b = parse(&argv, &envs).unwrap();
    assert_eq!(a.to_args_vec("daemon"), b.to_args_vec("daemon"));
    assert_eq!(a.ttrpc_address, b.ttrpc_address);
    assert_eq!(a.bundle, b.bundle);
}

#[test]
fn shim_name_strips_prefix() {
    let args = Arguments::parse_from(
        &strings(&["start"]),
        &pairs(&[]),
        Some("containerd-shim-wasm-v1"),
        false,
    )
    .unwrap();
    assert_eq!(args.shim_name, "wasm-v1");
    assert_eq!(shimkit::args::shim_name(Some("logger")), "logger");
    assert_eq!(shimkit::args::shim_name(None), "unknown");
}

#[test]
fn to_args_vec_rebuilds_command_line() {
    let args = parse(
        &["-debug", "-id", "1", "-namespace", "ns", "-address", "/a", "start", "r1", "r2"],
        &[],
    )
    .unwrap();
    assert_eq!(
        args.to_args_vec("daemon"),
        strings(&[
            "-id",
            "1",
            "-namespace",
            "ns",
            "-address",
            "/a",
            "-publish-binary",
            "containerd",
            "-debug",
            "daemon",
            "r1",
            "r2",
        ])
    );
}

#[test]
fn to_args_vec_without_debug() {
    let args = parse(&["-id", "1", "start"], &[]).unwrap();
    let v = args.to_args_vec("daemon");
    assert!(!v.contains(&"-debug".to_string()));
    assert_eq!(v.last().unwrap(), "daemon");
}
