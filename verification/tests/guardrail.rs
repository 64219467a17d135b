use uprobestats::config::{ProbeConfig, Task, UprobestatsConfig};
use uprobestats::guardrail::{get_full_method_name, is_allowed, GuardrailError};

fn setup_config(probe_configs: Vec<ProbeConfig>) -> UprobestatsConfig {
    UprobestatsConfig { tasks: vec![Task { probe_configs, ..Task::default() }] }
}

fn setup_probe_config(
    class_name: &str,
    method_name: &str,
    fully_qualified_parameters: Vec<String>,
) -> ProbeConfig {
    ProbeConfig {
        fully_qualified_class_name: Some(class_name.to_string()),
        method_name: Some(method_name.to_string()),
        fully_qualified_parameters: fully_qualified_parameters.clone(),
        method_signature: Some(format!(
            "void {}.{}({})",
            class_name,
            method_name,
            fully_qualified_parameters.join(", ")
        )),
        ..ProbeConfig::default()
    }
}

#[test]
fn everything_allowed_on_userdebug() {
    let config = setup_config(vec![setup_probe_config(
        "com.android.server.am.SomeClass",
        "doWork",
        vec![],
    )]);

    assert!(is_allowed(&config, false, true).unwrap());
    assert!(is_allowed(&config, false, false).unwrap());
}

#[test]
fn oom_adjuster_allowed() {
    let config = setup_config(vec![
        setup_probe_config(
            "com.android.server.am.OomAdjuster",
            "setUidTempAllowlistStateLSP",
            vec!["int".to_string(), "boolean".to_string()],
        ),
        setup_probe_config(
            "com.android.server.am.OomAdjuster$$ExternalSyntheticLambda0",
            "accept",
            vec!["java.lang.String".to_string()],
        ),
    ]);

    assert!(is_allowed(&config, false, false).unwrap());
    assert!(is_allowed(&config, true, false).unwrap());
    assert!(is_allowed(&config, false, true).unwrap());
    assert!(is_allowed(&config, true, true).unwrap());
}

#[test]
fn update_device_idle_temp_allowlist_allowed() {
    let config = setup_config(vec![setup_probe_config(
        "com.android.server.am.ActivityManagerService$LocalService",
        "updateDeviceIdleTempAllowlist",
        vec![],
    )]);

    assert_eq!(
        "com.android.server.am.ActivityManagerService$LocalService.updateDeviceIdleTempAllowlist()",
        &get_full_method_name(&config.tasks[0].probe_configs[0], false).unwrap()
    );

    assert!(is_allowed(&config, false, false).unwrap());
    assert!(is_allowed(&config, false, true).unwrap());
    assert!(is_allowed(&config, true, true).unwrap());
}

#[test]
fn oom_adjuster_with_suffix_disallowed() {
    let config = setup_config(vec![setup_probe_config(
        "com.android.server.am.OomAdjusterWithSomeSuffix",
        "doWork",
        vec![],
    )]);

    assert!(!is_allowed(&config, true, false).unwrap());
    assert!(!is_allowed(&config, true, true).unwrap());
}

#[test]
fn disallowed_method_in_second_task_disallowed() {
    let config = setup_config(vec![
        setup_probe_config("com.android.server.am.OomAdjusterWithSomeSuffix", "doWork", vec![]),
        setup_probe_config("com.android.server.am.DisallowedClass", "doWork", vec![]),
    ]);

    assert!(!is_allowed(&config, true, false).unwrap());
    assert!(!is_allowed(&config, true, true).unwrap());
}

#[test]
fn full_method_name_with_offsets_api_joins_class_and_method() {
    let probe = setup_probe_config("a.B", "run", vec!["int".to_string()]);
    assert_eq!(get_full_method_name(&probe, true).unwrap(), "a.B.run");
    assert_eq!(get_full_method_name(&probe, false).unwrap(), "a.B.run(int)");
}

#[test]
fn full_method_name_errors() {
    let empty = ProbeConfig::default();
    assert_eq!(get_full_method_name(&empty, true), Err(GuardrailError::ClassNameMissing));
    assert_eq!(get_full_method_name(&empty, false), Err(GuardrailError::MethodSignatureMissing));
    let no_method = ProbeConfig {
        fully_qualified_class_name: Some("a.B".to_string()),
        ..ProbeConfig::default()
    };
    assert_eq!(get_full_method_name(&no_method, true), Err(GuardrailError::MethodNameMissing));
    let no_space = ProbeConfig {
        method_signature: Some("voida.B.run()".to_string()),
        ..ProbeConfig::default()
    };
    assert_eq!(
        get_full_method_name(&no_space, false),
        Err(GuardrailError::MethodSignatureInvalid)
    );
    let trailing = ProbeConfig {
        method_signature: Some("void ".to_string()),
        ..ProbeConfig::default()
    };
    assert_eq!(get_full_method_name(&trailing, false).unwrap(), "");
    let three = ProbeConfig {
        method_signature: Some("void a.B.run(int, long) extra".to_string()),
        ..ProbeConfig::default()
    };
    assert_eq!(get_full_method_name(&three, false).unwrap(), "a.B.run(int,");
}

#[test]
fn errors_propagate_only_on_user_builds_and_in_order() {
    let config = setup_config(vec![ProbeConfig::default()]);
    assert!(is_allowed(&config, false, true).unwrap());
    assert_eq!(is_allowed(&config, true, true), Err(GuardrailError::ClassNameMissing));

    // A disallowed probe before a broken one decides first.
    let config = setup_config(vec![
        setup_probe_config("com.android.server.am.DisallowedClass", "doWork", vec![]),
        ProbeConfig::default(),
    ]);
    assert_eq!(is_allowed(&config, true, true), Ok(false));
}

#[test]
fn allowed_prefix_separators() {
    for (class, allowed) in [
        ("com.android.server.am.CachedAppOptimizer", true),
        ("com.android.server.am.CachedAppOptimizer$Inner", true),
        ("com.android.server.am.CachedAppOptimizerX", false),
        ("com.android.server.am.OomAdjusterModernImpl", true),
    ] {
        let config = setup_config(vec![setup_probe_config(class, "m", vec![])]);
        assert_eq!(is_allowed(&config, true, true), Ok(allowed), "{class}");
    }
    let exact = ProbeConfig {
        method_signature: Some(
            "void com.android.server.am.ActiveServices.bindServiceLocked".to_string(),
        ),
        ..ProbeConfig::default()
    };
    assert_eq!(is_allowed(&setup_config(vec![exact]), true, false), Ok(true));
}

#[test]
fn empty_config_is_allowed() {
    assert_eq!(is_allowed(&UprobestatsConfig::default(), true, true), Ok(true));
}

#[test]
fn allowed_config_stays_allowed_without_its_last_tasks() {
    let allowed_task = Task {
        probe_configs: vec![setup_probe_config("com.android.server.am.OomAdjuster", "run", vec![])],
        ..Task::default()
    };
    let other_task = Task {
        probe_configs: vec![setup_probe_config("com.android.server.am.CachedAppOptimizer", "m", vec![])],
        ..Task::default()
    };
    let extended = UprobestatsConfig { tasks: vec![allowed_task.clone(), other_task] };
    assert_eq!(is_allowed(&extended, true, true), Ok(true));
    let prefix = UprobestatsConfig { tasks: vec![allowed_task.clone()] };
    assert_eq!(is_allowed(&prefix, true, true), Ok(true));

    // Adding a task at the end can make an allowed configuration refused.
    let bad_task = Task {
        probe_configs: vec![setup_probe_config("com.android.server.am.DisallowedClass", "m", vec![])],
        ..Task::default()
    };
    let refused = UprobestatsConfig { tasks: vec![allowed_task, bad_task] };
    assert_eq!(is_allowed(&refused, true, true), Ok(false));
}
