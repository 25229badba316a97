use shimkit::args::{ArgsError, Arguments};
use shimkit::bootstrap::{first_log_sink, next_log_sink, LogSink, Role};
use shimkit::serve::{version_report, ServeAction};
use shimkit::utils::sandbox_id_from_annotations;

fn with_action(action: &str) -> Arguments {
    Arguments {
        action: action.into(),
        bundle: "/b".into(),
        ..Default::default()
    }
}

#[test]
fn roles() {
    assert_eq!(with_action("start").role(), Role::Launcher);
    assert_eq!(with_action("daemon").role(), Role::Daemon);
    assert_eq!(with_action("delete").role(), Role::Daemon);
    assert_eq!(with_action("version").role(), Role::Daemon);
}

#[test]
fn log_sink_fallbacks() {
    assert_eq!(first_log_sink(), LogSink::LogFile);
    assert_eq!(next_log_sink(LogSink::LogFile, true), Some(LogSink::Stderr));
    assert_eq!(next_log_sink(LogSink::LogFile, false), Some(LogSink::Null));
    assert_eq!(next_log_sink(LogSink::Stderr, true), Some(LogSink::Null));
    assert_eq!(next_log_sink(LogSink::Null, true), None);
    assert_eq!(next_log_sink(LogSink::Null, false), None);
}

#[test]
fn serve_version() {
    assert!(matches!(with_action("version").serve_action("/s", true), Ok(ServeAction::Version)));
}

#[test]
fn serve_delete() {
    match with_action("delete").serve_action("/s", true) {
        Ok(ServeAction::Cleanup(bundle)) => assert_eq!(bundle, "/b"),
        _ => panic!("expected a cleanup"),
    }
}

#[test]
fn serve_daemon() {
    match with_action("daemon").serve_action("/run/s.sock", true) {
        Ok(ServeAction::Listen { address, line }) => {
            assert_eq!(address, "unix:///run/s.sock");
            assert_eq!(line, "unix:///run/s.sock\n");
        }
        _ => panic!("expected to listen"),
    }
    match with_action("daemon").serve_action("/run/s.sock", false) {
        Ok(ServeAction::Listen { address, line }) => {
            assert_eq!(address, "/run/s.sock");
            assert_eq!(line, "/run/s.sock\n");
        }
        _ => panic!("expected to listen"),
    }
}

#[test]
fn serve_start_is_unsupported() {
    match with_action("start").serve_action("/s", true) {
        Err(ArgsError::UnsupportedAction(a)) => assert_eq!(a, "start"),
        _ => panic!("expected an error"),
    }
}

#[test]
fn version_report_lines() {
    let info = vec![
        ("Version".to_string(), "1.0".to_string()),
        ("Revision".to_string(), "abc".to_string()),
    ];
    assert_eq!(
        version_report("/bin/shim", &info),
        "/bin/shim:\n  Version: 1.0\n  Revision: abc\n"
    );
    assert_eq!(version_report("x", &vec![]), "x:\n");
}

#[test]
fn sandbox_id_prefers_cri_label() {
    let both = vec![
        ("io.containerd.runc.v2.group".to_string(), "group".to_string()),
        ("io.kubernetes.cri.sandbox-id".to_string(), "cri".to_string()),
    ];
    assert_eq!(sandbox_id_from_annotations(&both).as_deref(), Some("cri"));
    let group = vec![("io.containerd.runc.v2.group".to_string(), "group".to_string())];
    assert_eq!(sandbox_id_from_annotations(&group).as_deref(), Some("group"));
    let none = vec![("other".to_string(), "x".to_string())];
    assert_eq!(sandbox_id_from_annotations(&none), None);
}
