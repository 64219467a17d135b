use uprobestats::bpf_map::CStrError;
use uprobestats::config::TargetProcessSelection;
use uprobestats::process::{
    app_start_match, app_start_probe, cmdline_matches, parse_pid, pid_from_entries, process_lookup,
    scan_process_changes, ProcEntry,
    wait_for_app_start_observer, ProcessChange, ProcessError, ProcessLookup, ProcessStarted,
    ResolvedProcess,
};

fn started(pid: i32, uid: u32, name: &str) -> ProcessStarted {
    ProcessStarted {
        pid,
        process_uid: uid,
        package_uid: uid,
        package_name: "pkg".to_string(),
        process_name: name.to_string(),
    }
}

#[test]
fn observer_takes_first_matching_start() {
    let events = vec![started(1, 10, "a"), started(2, 20, "b"), started(3, 30, "b")];
    assert_eq!(
        wait_for_app_start_observer(Some("b"), &events),
        Ok(ResolvedProcess { pid: 2, uid: 20, name: "b".to_string() })
    );
    assert_eq!(
        wait_for_app_start_observer(None, &events),
        Ok(ResolvedProcess { pid: 1, uid: 10, name: "a".to_string() })
    );
    assert_eq!(wait_for_app_start_observer(Some("c"), &events), Err(ProcessError::Timeout));
    assert_eq!(wait_for_app_start_observer(None, &vec![]), Err(ProcessError::Timeout));
}

#[test]
fn observer_uid_is_reinterpreted_as_signed() {
    let e = started(5, u32::MAX, "x");
    assert_eq!(app_start_match(None, &e).unwrap().uid, -1);
    assert_eq!(app_start_match(Some("xy"), &e), None);
}

#[test]
fn lookup_by_selection() {
    let name = Some("n".to_string());
    assert_eq!(
        process_lookup(&name, TargetProcessSelection::SpecificAppProcessOnStart, 9, false),
        Ok(ProcessLookup::AppStart { process_name: name.clone(), duration_seconds: 9, via_observer: false })
    );
    assert_eq!(
        process_lookup(&name, TargetProcessSelection::SpecificProcessName, 9, false),
        Ok(ProcessLookup::ByName { process_name: "n".to_string() })
    );
    assert_eq!(
        process_lookup(&None, TargetProcessSelection::SpecificProcessName, 9, false),
        Err(ProcessError::ProcessNameRequired(TargetProcessSelection::SpecificProcessName))
    );
    assert_eq!(
        process_lookup(&None, TargetProcessSelection::SpecificAppProcessOnStart, 9, true),
        Ok(ProcessLookup::AppStart { process_name: None, duration_seconds: 9, via_observer: true })
    );
}

fn change(pid: i32, uid: i32, name: &[u8]) -> ProcessChange {
    ProcessChange { pid, uid, process_name: name.to_vec() }
}

#[test]
fn process_changes_scan() {
    let changes = vec![change(0, 1, b"app\0"), change(4, 2, b"other\0"), change(6, 3, b"app\0\0")];
    assert_eq!(
        scan_process_changes(Some("app"), &changes),
        Ok(Some(ResolvedProcess { pid: 6, uid: 3, name: "app".to_string() }))
    );
    assert_eq!(
        scan_process_changes(None, &changes),
        Ok(Some(ResolvedProcess { pid: 4, uid: 2, name: "other".to_string() }))
    );
    assert_eq!(scan_process_changes(Some("zzz"), &changes), Ok(None));
    let bad = vec![change(4, 2, b"no terminator"), change(6, 3, b"app\0")];
    assert_eq!(scan_process_changes(Some("app"), &bad), Err(CStrError::MissingNul));
}

#[test]
fn cmdline_and_pid() {
    assert!(cmdline_matches("system_server", "system_server"));
    assert!(cmdline_matches("com.app\0--flag", "com.app"));
    assert!(!cmdline_matches("com", "com.app"));
    assert_eq!(parse_pid("1234"), Some(1234));
    assert_eq!(parse_pid("self"), None);
    assert_eq!(parse_pid("+7"), Some(7));
}

#[test]
fn pid_taken_from_first_matching_entry_with_numeric_name() {
    let entry = |name: &str, cmdline: &str| ProcEntry { name: name.to_string(), cmdline: cmdline.to_string() };
    let entries = vec![
        entry("1", "init"),
        entry("self", "com.app\0"),
        entry("42", "com.app\0--flag"),
        entry("43", "com.app"),
    ];
    assert_eq!(pid_from_entries(&entries, "com.app"), Some(42));
    assert_eq!(pid_from_entries(&entries, "init"), Some(1));
    assert_eq!(pid_from_entries(&entries, "com.other"), None);
    assert_eq!(pid_from_entries(&vec![], "init"), None);
}

#[test]
fn app_start_probe_tries_make_active_then_on_process_active() {
    let first = app_start_probe(false);
    assert_eq!((first.query.uid, first.query.pid, first.query.process_name.as_str()), (0, 0, "system_server"));
    assert_eq!(
        (first.query.class_name.as_str(), first.query.method_name.as_str()),
        ("com.android.server.am.ProcessRecord", "makeActive")
    );
    assert_eq!(
        first.query.parameters,
        vec!["com.android.server.am.ApplicationThreadDeferred", "com.android.server.am.ProcessStatsService"]
    );
    assert_eq!(first.bpf_program_name, "prog_ProcessManagement_uprobe_make_active");

    let fallback = app_start_probe(true);
    assert_eq!(fallback.query.process_name, "system_server");
    assert_eq!(
        (fallback.query.class_name.as_str(), fallback.query.method_name.as_str()),
        ("com.android.server.am.ProcessProfileRecord", "onProcessActive")
    );
    assert_eq!(
        fallback.query.parameters,
        vec!["android.app.IApplicationThread", "com.android.server.am.ProcessStatsService"]
    );
    assert_eq!(fallback.bpf_program_name, "prog_ProcessManagement_uprobe_on_process_active");
}
