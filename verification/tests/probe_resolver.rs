use uprobestats::config::{BinderTransactionFilter, ProbeConfig, Task};
use uprobestats::config_resolver::{FeatureFlags, MethodFileOffsets, ResolveError, ResolvedTask};
use uprobestats::bpf::UpdateMapElemFlags;
use uprobestats::probe_resolver::{ProbeAction, ProbeResolver};

fn task_with(probes: Vec<ProbeConfig>) -> ResolvedTask {
    ResolvedTask {
        task: Task { probe_configs: probes, ..Task::default() },
        duration_seconds: 10,
        process_name: "system_server".to_string(),
        pid: 100,
        uid: 1000,
        bpf_map_paths: vec![],
    }
}

fn flags() -> FeatureFlags {
    FeatureFlags { enable_binder_transaction: true, ..FeatureFlags::default() }
}

fn oatdump_probe() -> ProbeConfig {
    ProbeConfig {
        bpf_name: Some("prog_GenericInstrumentation_x".to_string()),
        method_signature: Some("void a.B.c()".to_string()),
        file_paths: vec!["/1.odex".to_string(), "/2.odex".to_string()],
        ..ProbeConfig::default()
    }
}

fn binder_probe(filters: Vec<BinderTransactionFilter>) -> ProbeConfig {
    ProbeConfig {
        bpf_name: Some("prog_Binder_uprobe_exec_transact_internal".to_string()),
        fully_qualified_class_name: Some("android.os.Binder".to_string()),
        method_name: Some("execTransactInternal".to_string()),
        binder_transaction_filters: filters,
        ..ProbeConfig::default()
    }
}

fn offsets(off: u64) -> Option<MethodFileOffsets> {
    Some(MethodFileOffsets { container_path: "/framework.jar".to_string(), container_offset: 0, method_offset: off })
}

#[test]
fn resolves_probes_in_order_and_opens_binder_map_once() {
    let filter = |name: &str, ids: Vec<i32>| BinderTransactionFilter { interface_name: Some(name.to_string()), method_ids: ids };
    let probes = vec![
        oatdump_probe(),
        binder_probe(vec![filter("IFoo", vec![1, 2]), filter("IBar", vec![7])]),
        binder_probe(vec![filter("IBaz", vec![3])]),
    ];
    let mut r = ProbeResolver::new(task_with(probes), flags());

    match r.next_action() {
        ProbeAction::RunOatdump { file_path, method_signature } => {
            assert_eq!((file_path.as_str(), method_signature.as_str()), ("/1.odex", "void a.B.c()"));
        }
        other => panic!("{other:?}"),
    }
    match r.on_oatdump(Some(0)) {
        ProbeAction::RunOatdump { file_path, .. } => assert_eq!(file_path, "/2.odex"),
        other => panic!("{other:?}"),
    }
    assert_eq!(r.on_oatdump(Some(0x30)), ProbeAction::ProbeResolved);

    match r.next_action() {
        ProbeAction::QueryOffsets(q) => {
            assert_eq!((q.uid, q.pid), (1000, 100));
            assert_eq!(q.class_name, "android.os.Binder");
        }
        other => panic!("{other:?}"),
    }
    assert_eq!(r.on_offsets(offsets(0x500)), ProbeAction::OpenBinderMap);
    match r.on_binder_map_opened() {
        ProbeAction::WriteBinderFilter { entry: e, flags } => {
            assert_eq!((e.interface_name.as_str(), e.codes), ("IFoo", vec![1, 2]));
            assert_eq!(flags, UpdateMapElemFlags::Insert);
        }
        other => panic!("{other:?}"),
    }
    match r.on_filter_written() {
        ProbeAction::WriteBinderFilter { entry: e, flags } => assert_eq!((e.interface_name.as_str(), flags), ("IBar", UpdateMapElemFlags::Insert)),
        other => panic!("{other:?}"),
    }
    assert_eq!(r.on_filter_written(), ProbeAction::ProbeResolved);

    assert!(matches!(r.next_action(), ProbeAction::QueryOffsets(_)));
    // The map is already open: the filter is written directly.
    match r.on_offsets(offsets(0x600)) {
        ProbeAction::WriteBinderFilter { entry: e, flags } => assert_eq!((e.interface_name.as_str(), flags), ("IBaz", UpdateMapElemFlags::Insert)),
        other => panic!("{other:?}"),
    }
    assert_eq!(r.on_filter_written(), ProbeAction::ProbeResolved);
    assert_eq!(r.next_action(), ProbeAction::Finished);

    let (resolved, opened) = r.into_resolved();
    assert!(opened);
    assert_eq!(resolved.len(), 3);
    assert_eq!((resolved[0].filename.as_str(), resolved[0].offset), ("/2.odex", 0x30));
    assert_eq!(resolved[0].bpf_program_path, "/sys/fs/bpf/uprobestats/prog_GenericInstrumentation_x");
    assert_eq!((resolved[1].filename.as_str(), resolved[1].offset), ("/framework.jar", 0x500));
    assert_eq!(resolved[2].offset, 0x600);
    assert_eq!(resolved[1].bpf_program_path, "/sys/fs/bpf/uprobestats/prog_Binder_uprobe_exec_transact_internal");
    assert_eq!(resolved[0].probe, oatdump_probe());
    assert_eq!(resolved[2].probe.binder_transaction_filters[0].method_ids, vec![3]);
}

#[test]
fn binder_program_found_by_oatdump_does_not_open_the_map() {
    let probe = ProbeConfig {
        bpf_name: Some("prog_Binder_uprobe_exec_transact_internal".to_string()),
        ..oatdump_probe()
    };
    let mut r = ProbeResolver::new(task_with(vec![probe]), flags());
    assert!(matches!(r.next_action(), ProbeAction::RunOatdump { .. }));
    assert_eq!(r.on_oatdump(Some(8)), ProbeAction::ProbeResolved);
    assert_eq!(r.next_action(), ProbeAction::Finished);
    let (resolved, opened) = r.into_resolved();
    assert!(!opened);
    assert_eq!((resolved[0].filename.as_str(), resolved[0].offset), ("/1.odex", 8));
}

#[test]
fn failures_end_resolution() {
    let mut r = ProbeResolver::new(task_with(vec![oatdump_probe()]), flags());
    r.next_action();
    r.on_oatdump(None);
    assert_eq!(
        r.on_oatdump(Some(-1)),
        ProbeAction::Failed(ResolveError::OffsetNotFound("void a.B.c()".to_string()))
    );

    let mut r = ProbeResolver::new(task_with(vec![binder_probe(vec![])]), flags());
    r.next_action();
    assert_eq!(r.on_offsets(offsets(1)), ProbeAction::OpenBinderMap);
    assert_eq!(r.on_binder_map_opened(), ProbeAction::Failed(ResolveError::BinderFiltersMissing));

    let mut r = ProbeResolver::new(task_with(vec![binder_probe(vec![])]), flags());
    r.next_action();
    assert_eq!(
        r.on_offsets(None),
        ProbeAction::Failed(ResolveError::OffsetsNotFound("android.os.Binder".to_string()))
    );

    let mut r = ProbeResolver::new(task_with(vec![ProbeConfig::default()]), flags());
    assert_eq!(r.next_action(), ProbeAction::Failed(ResolveError::BpfNameMissing));

    let no_files = ProbeConfig { file_paths: vec![], ..oatdump_probe() };
    let mut r = ProbeResolver::new(task_with(vec![no_files]), flags());
    assert_eq!(
        r.next_action(),
        ProbeAction::Failed(ResolveError::OffsetNotFound("void a.B.c()".to_string()))
    );

    let mut r = ProbeResolver::new(task_with(vec![]), flags());
    assert_eq!(r.next_action(), ProbeAction::Finished);
    assert!(r.into_resolved().0.is_empty());
}
