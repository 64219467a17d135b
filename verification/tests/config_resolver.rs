use uprobestats::config::{
    BinderTransactionFilter, ProbeConfig, Task, TargetProcessSelection, UprobestatsConfig,
};
use uprobestats::config_resolver::{
    binder_filter_entry, check_binder_filters_present, is_bpf_file_enabled, needs_binder_filters,
    plan_probe, prefix_bpf, probe_from_offsets, resolve_single_task, FeatureFlags,
    MethodFileOffsets, OatdumpSearch, OffsetSource, OffsetsRetry, ResolveError, ResolvedTask,
    ServiceStatus, EX_ILLEGAL_STATE, EX_SERVICE_SPECIFIC,
};
use uprobestats::process::{ProcessError, ProcessLookup, ResolvedProcess};

fn all_on() -> FeatureFlags {
    FeatureFlags {
        monitor_disruptive_app_activities: true,
        enable_bitmap_snapshot: true,
        enable_bitmap_instrumentation: true,
        enable_binder_transaction: true,
        use_process_observer_api: true,
    }
}

fn task(maps: &[&str], duration: Option<i32>) -> Task {
    Task {
        bpf_maps: maps.iter().map(|s| s.to_string()).collect(),
        duration_seconds: duration,
        target_process_name: Some("system_server".to_string()),
        ..Task::default()
    }
}

#[test]
fn bpf_files_gated_by_flags() {
    let off = FeatureFlags::default();
    assert!(!is_bpf_file_enabled("map_DisruptiveApp_BindServiceLocked_output_buf", &off));
    assert!(is_bpf_file_enabled("map_DisruptiveApp_BindServiceLocked_output_buf", &all_on()));
    let snapshot = "prog_BitmapAllocation_uprobe_apply_free_function";
    let only_instr = FeatureFlags { enable_bitmap_instrumentation: true, ..off };
    assert!(!is_bpf_file_enabled(snapshot, &only_instr));
    assert!(is_bpf_file_enabled("map_BitmapAllocation_x", &only_instr));
    let only_snapshot = FeatureFlags { enable_bitmap_snapshot: true, ..off };
    assert!(is_bpf_file_enabled("map_BitmapAllocation_x", &only_snapshot));
    assert!(!is_bpf_file_enabled("prog_Binder_x", &off));
    assert!(is_bpf_file_enabled("prog_GenericInstrumentation_x", &off));
    assert_eq!(prefix_bpf("map_x"), "/sys/fs/bpf/uprobestats/map_x");
}

#[test]
fn single_task_checks_in_order() {
    let flags = FeatureFlags::default();
    assert_eq!(
        resolve_single_task(UprobestatsConfig::default(), &flags).unwrap_err(),
        ResolveError::NoTasks
    );
    let disabled = UprobestatsConfig {
        tasks: vec![task(&["map_a", "map_DisruptiveApp_b", "map_Binder_c"], None)],
    };
    assert_eq!(
        resolve_single_task(disabled, &flags).unwrap_err(),
        ResolveError::BpfFileDisabled("map_DisruptiveApp_b".to_string())
    );
    let no_duration = UprobestatsConfig { tasks: vec![task(&["map_a"], None)] };
    assert_eq!(
        resolve_single_task(no_duration, &flags).unwrap_err(),
        ResolveError::DurationMissing
    );
    let zero = UprobestatsConfig { tasks: vec![task(&["map_a"], Some(0))] };
    assert_eq!(resolve_single_task(zero, &flags).unwrap_err(), ResolveError::DurationNotPositive);
    let mut nameless = task(&[], Some(5));
    nameless.target_process_name = None;
    assert_eq!(
        resolve_single_task(UprobestatsConfig { tasks: vec![nameless] }, &flags).unwrap_err(),
        ResolveError::Process(ProcessError::ProcessNameRequired(TargetProcessSelection::Unknown))
    );
}

#[test]
fn single_task_resolves_paths_once_and_lookup() {
    let flags = FeatureFlags::default();
    let config = UprobestatsConfig {
        tasks: vec![task(&["map_a", "map_b", "map_a"], Some(30)), task(&["map_DisruptiveApp"], None)],
    };
    let pending = resolve_single_task(config, &flags).unwrap();
    let mut paths = pending.bpf_map_paths.clone();
    paths.sort();
    assert_eq!(
        paths,
        vec!["/sys/fs/bpf/uprobestats/map_a".to_string(), "/sys/fs/bpf/uprobestats/map_b".to_string()]
    );
    assert_eq!(pending.duration_seconds, 30);
    assert_eq!(
        pending.process_lookup,
        ProcessLookup::ByName { process_name: "system_server".to_string() }
    );
    let resolved = pending.complete(ResolvedProcess { pid: 7, uid: 0, name: "system_server".to_string() });
    assert_eq!(resolved.pid, 7);
    assert_eq!(resolved.duration_seconds, 30);

    let mut app = task(&[], Some(3));
    app.target_process_selection = Some(TargetProcessSelection::AnyAppProcessOnStart);
    let pending = resolve_single_task(UprobestatsConfig { tasks: vec![app] }, &all_on()).unwrap();
    assert_eq!(
        pending.process_lookup,
        ProcessLookup::AppStart { process_name: None, duration_seconds: 3, via_observer: true }
    );
}

fn resolved_task(uid: i32) -> ResolvedTask {
    ResolvedTask {
        task: Task::default(),
        duration_seconds: 10,
        process_name: "com.example".to_string(),
        pid: 42,
        uid,
        bpf_map_paths: vec![],
    }
}

#[test]
fn probe_plans() {
    let flags = FeatureFlags::default();
    let t = resolved_task(1000);
    assert_eq!(plan_probe(&ProbeConfig::default(), &t, &flags).unwrap_err(), ResolveError::BpfNameMissing);
    let binder = ProbeConfig { bpf_name: Some("prog_Binder_x".to_string()), ..ProbeConfig::default() };
    assert_eq!(
        plan_probe(&binder, &t, &flags).unwrap_err(),
        ResolveError::BpfFileDisabled("prog_Binder_x".to_string())
    );
    let class_only = ProbeConfig {
        bpf_name: Some("prog_x".to_string()),
        fully_qualified_class_name: Some("a.B".to_string()),
        ..ProbeConfig::default()
    };
    assert_eq!(plan_probe(&class_only, &t, &flags).unwrap_err(), ResolveError::MethodNameMissing);
    let query_probe = ProbeConfig {
        method_name: Some("run".to_string()),
        fully_qualified_parameters: vec!["int".to_string()],
        ..class_only.clone()
    };
    assert_eq!(
        plan_probe(&query_probe, &resolved_task(-1), &flags).unwrap_err(),
        ResolveError::NegativeUid(-1)
    );
    let plan = plan_probe(&query_probe, &t, &flags).unwrap();
    assert_eq!(plan.bpf_program_path, "/sys/fs/bpf/uprobestats/prog_x");
    match plan.source {
        OffsetSource::Query(q) => {
            assert_eq!((q.uid, q.pid, q.process_name.as_str()), (1000, 42, "com.example"));
            assert_eq!((q.class_name.as_str(), q.method_name.as_str()), ("a.B", "run"));
            assert_eq!(q.parameters, vec!["int".to_string()]);
        }
        _ => panic!("expected a query"),
    }
    let no_sig = ProbeConfig { bpf_name: Some("prog_x".to_string()), ..ProbeConfig::default() };
    assert_eq!(plan_probe(&no_sig, &t, &flags).unwrap_err(), ResolveError::MethodSignatureMissing);
}

#[test]
fn oatdump_search_takes_first_positive_offset() {
    let probe = ProbeConfig {
        bpf_name: Some("prog_x".to_string()),
        method_signature: Some("void a.B.c()".to_string()),
        file_paths: vec!["/a.odex".to_string(), "/b.odex".to_string(), "/c.odex".to_string()],
        ..ProbeConfig::default()
    };
    let plan = plan_probe(&probe, &resolved_task(0), &FeatureFlags::default()).unwrap();
    let mut search = match plan.source {
        OffsetSource::Oatdump(s) => s,
        _ => panic!("expected a search"),
    };
    assert_eq!(search.signature(), "void a.B.c()");
    assert_eq!(search.next_file().unwrap(), "/a.odex");
    search.record(None);
    assert_eq!(search.next_file().unwrap(), "/b.odex");
    search.record(Some(0x40));
    assert!(search.next_file().is_none());
    let r = search.finish(probe.clone(), plan.bpf_program_path.clone()).unwrap();
    assert_eq!((r.filename.as_str(), r.offset), ("/b.odex", 0x40));

    let mut none = OatdumpSearch::new("void a.B.c()".to_string(), vec!["/a".to_string()]);
    none.record(Some(-3));
    assert!(none.next_file().is_none());
    assert_eq!(
        none.finish(probe, "p".to_string()).unwrap_err(),
        ResolveError::OffsetNotFound("void a.B.c()".to_string())
    );
}

#[test]
fn offsets_to_probe() {
    let probe = ProbeConfig::default();
    let class = "a.B".to_string();
    assert_eq!(
        probe_from_offsets(probe.clone(), "p".to_string(), &class, None).unwrap_err(),
        ResolveError::OffsetsNotFound("a.B".to_string())
    );
    let big = MethodFileOffsets { container_path: "/f".to_string(), container_offset: 0, method_offset: 1 << 31 };
    assert_eq!(
        probe_from_offsets(probe.clone(), "p".to_string(), &class, Some(big)).unwrap_err(),
        ResolveError::MethodOffsetOutOfRange(1 << 31)
    );
    let ok = MethodFileOffsets { container_path: "/f".to_string(), container_offset: 5, method_offset: 77 };
    let r = probe_from_offsets(probe, "/sys/fs/bpf/uprobestats/prog_Binder_uprobe_exec_transact_internal".to_string(), &class, Some(ok)).unwrap();
    assert_eq!((r.filename.as_str(), r.offset), ("/f", 77));
    assert!(needs_binder_filters(&r));
    assert_eq!(check_binder_filters_present(&r), Err(ResolveError::BinderFiltersMissing));
}

#[test]
fn binder_filters() {
    let f = BinderTransactionFilter { interface_name: None, method_ids: vec![1] };
    assert_eq!(binder_filter_entry(&f), Err(ResolveError::BinderInterfaceNameMissing));
    let f = BinderTransactionFilter { interface_name: Some("I".to_string()), method_ids: vec![] };
    assert_eq!(binder_filter_entry(&f), Err(ResolveError::BinderMethodIdsMissing));
    let f = BinderTransactionFilter { interface_name: Some("I".to_string()), method_ids: vec![3, -2, -5] };
    assert_eq!(binder_filter_entry(&f), Err(ResolveError::BinderMethodIdNegative(-2)));
    let f = BinderTransactionFilter { interface_name: Some("I".to_string()), method_ids: vec![3, 9] };
    let e = binder_filter_entry(&f).unwrap();
    assert_eq!((e.interface_name.as_str(), e.codes), ("I", vec![3u64, 9]));
}

#[test]
fn retry_schedule() {
    let not_ready = ServiceStatus { exception_code: EX_SERVICE_SPECIFIC, service_specific_error: EX_ILLEGAL_STATE };
    let mut retry = OffsetsRetry::new(&all_on());
    let waits: Vec<u64> = (0..5).map(|_| retry.on_failure(not_ready).unwrap()).collect();
    assert_eq!(waits, vec![10, 20, 40, 80, 160]);
    assert_eq!(retry.on_failure(not_ready), Err(ResolveError::RetriesExhausted(not_ready)));

    let mut retry = OffsetsRetry::new(&all_on());
    let other = ServiceStatus { exception_code: -3, service_specific_error: 0 };
    assert_eq!(retry.on_failure(other), Err(ResolveError::UnexpectedStatus(other)));
    let specific = ServiceStatus { exception_code: EX_SERVICE_SPECIFIC, service_specific_error: 1 };
    assert_eq!(retry.on_failure(specific), Err(ResolveError::UnexpectedServiceSpecificError(specific)));

    let mut no_retry = OffsetsRetry::new(&FeatureFlags::default());
    assert_eq!(no_retry.on_failure(not_ready), Err(ResolveError::OffsetsQueryFailed(not_ready)));
}

#[test]
fn a_run_fails_at_most_six_times_and_waits_310_ms() {
    let not_ready = ServiceStatus { exception_code: EX_SERVICE_SPECIFIC, service_specific_error: EX_ILLEGAL_STATE };
    let mut retry = OffsetsRetry::new(&all_on());
    let mut failed_calls = 0;
    let mut waited = 0;
    loop {
        failed_calls += 1;
        match retry.on_failure(not_ready) {
            Ok(wait) => waited += wait,
            Err(e) => {
                assert_eq!(e, ResolveError::RetriesExhausted(not_ready));
                break;
            }
        }
    }
    assert_eq!((failed_calls, waited), (6, 310));

    // An unexpected error after two retries ends the run at once.
    let mut retry = OffsetsRetry::new(&all_on());
    assert_eq!(retry.on_failure(not_ready), Ok(10));
    assert_eq!(retry.on_failure(not_ready), Ok(20));
    let other = ServiceStatus { exception_code: -3, service_specific_error: 0 };
    assert_eq!(retry.on_failure(other), Err(ResolveError::UnexpectedStatus(other)));
}
