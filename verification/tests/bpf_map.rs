use uprobestats::activity_manager::ForegroundActivitiesState;
use uprobestats::bpf::UpdateMapElemFlags;
use uprobestats::bpf_map::disruptive_app::{
    BindServiceLocked, BindServiceLockedHandler, ComponentEnabledSetting,
    ComponentEnabledSettingHandler,
};
use uprobestats::bpf_map::generic_instrumentation::{
    CallResult, CallResultHandler, CallTimestamp, CallTimestampHandler,
};
use uprobestats::bpf_map::process_management::{
    SetUidTempAllowlistStateRecord, SetUidTempAllowlistStateRecordHandler,
    UpdateDeviceIdleTempAllowlistRecord, UpdateDeviceIdleTempAllowlistRecordHandler,
};
use uprobestats::bpf_map::{
    bytes_as_str, poll_registry, CStrError, HandlerError, HandlerKind, StatsValue,
};
use uprobestats::config::{StatsdLoggingConfig, Task};
use uprobestats::config_resolver::ResolvedTask;

fn task_with(config: Option<StatsdLoggingConfig>) -> ResolvedTask {
    ResolvedTask {
        task: Task { statsd_logging_config: config, ..Task::default() },
        duration_seconds: 1,
        process_name: String::new(),
        pid: 1,
        uid: 0,
        bpf_map_paths: vec![],
    }
}

fn logging(atom: i64, positions: Vec<i32>) -> Option<StatsdLoggingConfig> {
    Some(StatsdLoggingConfig { atom_id: Some(atom), primitive_argument_positions: positions })
}

#[test]
fn c_strings() {
    assert_eq!(bytes_as_str(b"abc\0def").unwrap(), "abc");
    assert_eq!(bytes_as_str(b"\0").unwrap(), "");
    assert_eq!(bytes_as_str(b"abc"), Err(CStrError::MissingNul));
    assert_eq!(bytes_as_str(&[0xc3, 0x28, 0]), Err(CStrError::InvalidUtf8));
    assert_eq!(bytes_as_str("é\0".as_bytes()).unwrap(), "é");
}

#[test]
fn registry_by_map_path() {
    for k in [
        HandlerKind::BindServiceLocked,
        HandlerKind::CallTimestamp,
        HandlerKind::CallResult,
        HandlerKind::ComponentEnabledSetting,
        HandlerKind::SetUidTempAllowlistStateRecord,
        HandlerKind::UpdateDeviceIdleTempAllowlistRecord,
    ] {
        assert_eq!(poll_registry(k.map_path()), Ok(k));
    }
    assert_eq!(poll_registry(CallTimestampHandler::MAP_PATH), Ok(HandlerKind::CallTimestamp));
    assert_eq!(poll_registry(CallResultHandler::MAP_PATH), Ok(HandlerKind::CallResult));
    assert_eq!(poll_registry(BindServiceLockedHandler::MAP_PATH), Ok(HandlerKind::BindServiceLocked));
    assert_eq!(
        poll_registry(ComponentEnabledSettingHandler::MAP_PATH),
        Ok(HandlerKind::ComponentEnabledSetting)
    );
    assert_eq!(
        poll_registry(SetUidTempAllowlistStateRecordHandler::MAP_PATH),
        Ok(HandlerKind::SetUidTempAllowlistStateRecord)
    );
    assert_eq!(
        poll_registry(UpdateDeviceIdleTempAllowlistRecordHandler::MAP_PATH),
        Ok(HandlerKind::UpdateDeviceIdleTempAllowlistRecord)
    );
    assert_eq!(poll_registry("/sys/fs/bpf/uprobestats/map_unknown"), Err(HandlerError::UnsupportedMapPath));
}

#[test]
fn call_timestamp_events() {
    let mut h = CallTimestampHandler::default();
    let data = CallTimestamp { event: 3, timestamp_ns: 99 };
    assert_eq!(h.on_item(&task_with(None), &data), Ok(None));
    let no_atom = Some(StatsdLoggingConfig { atom_id: None, primitive_argument_positions: vec![] });
    assert_eq!(h.on_item(&task_with(no_atom), &data), Err(HandlerError::AtomIdMissing));
    assert_eq!(h.on_item(&task_with(logging(-1, vec![])), &data), Err(HandlerError::AtomIdOutOfRange));
    let ev = h.on_item(&task_with(logging(900, vec![])), &data).unwrap().unwrap();
    assert_eq!(ev.atom_id, 900);
    assert_eq!(ev.values, vec![StatsValue::Int32(3), StatsValue::Int64(99)]);
    let big = CallTimestamp { event: u32::MAX, timestamp_ns: 0 };
    assert_eq!(h.on_item(&task_with(logging(900, vec![])), &big), Err(HandlerError::ValueOutOfRange));
}

#[test]
fn call_result_arguments() {
    let mut h = CallResultHandler::default();
    let data = CallResult { pc: 0, regs: vec![100, 101, 102, 103, 104, 105, 106, 107, 108, 109] };
    let ev = h.on_item(&task_with(logging(5, vec![0, 2, 1])), &data).unwrap().unwrap();
    assert_eq!(ev.values, vec![StatsValue::Int32(102), StatsValue::Int32(104), StatsValue::Int32(103)]);
    assert_eq!(
        h.on_item(&task_with(logging(5, vec![-3, 100])), &data),
        Err(HandlerError::ArgumentPositionOutOfRange)
    );
    let wide = CallResult { pc: 0, regs: vec![0, 0, u64::MAX] };
    assert_eq!(h.on_item(&task_with(logging(5, vec![0])), &wide), Err(HandlerError::ValueOutOfRange));

    // Without an atom the registers are not read at all.
    let mut no_atom = logging(5, vec![100]).unwrap();
    no_atom.atom_id = None;
    assert_eq!(h.on_item(&task_with(Some(no_atom)), &wide), Err(HandlerError::AtomIdMissing));
}

#[test]
fn allowlist_records() {
    let mut h = SetUidTempAllowlistStateRecordHandler::default();
    let ev = h
        .on_item(&task_with(logging(7, vec![])), &SetUidTempAllowlistStateRecord { uid: 10001, on_allowlist: true })
        .unwrap()
        .unwrap();
    assert_eq!(ev.values, vec![StatsValue::Int32(10001), StatsValue::Bool(true)]);
    assert_eq!(
        h.on_item(&task_with(logging(7, vec![])), &SetUidTempAllowlistStateRecord { uid: u32::MAX, on_allowlist: false }),
        Err(HandlerError::ValueOutOfRange)
    );

    let mut h = UpdateDeviceIdleTempAllowlistRecordHandler::default();
    let rec = UpdateDeviceIdleTempAllowlistRecord {
        changing_uid: 1,
        adding: true,
        duration_ms: 5000,
        type_: 2,
        reason_code: 3,
        reason: b"push\0".to_vec(),
        calling_uid: 4,
    };
    let ev = h.on_item(&task_with(logging(8, vec![])), &rec).unwrap().unwrap();
    assert_eq!(
        ev.values,
        vec![
            StatsValue::Int32(1),
            StatsValue::Bool(true),
            StatsValue::Int64(5000),
            StatsValue::Int32(2),
            StatsValue::Int32(3),
            StatsValue::Str("push".to_string()),
            StatsValue::Int32(4)
        ]
    );
    let bad = UpdateDeviceIdleTempAllowlistRecord { reason: b"x".to_vec(), ..rec };
    assert_eq!(h.on_item(&task_with(logging(8, vec![])), &bad), Err(HandlerError::CStr(CStrError::MissingNul)));
}

#[test]
fn component_enabled_setting_plans() {
    let mut h = ComponentEnabledSettingHandler::default();
    let data = ComponentEnabledSetting {
        package_name: b"com.app\0".to_vec(),
        class_name: b"Main\0".to_vec(),
        new_state: 2,
        calling_package_name: b"shell\0".to_vec(),
    };
    let call = h.decode(&data).unwrap();
    let plan = h.on_item(call.clone(), true, false);
    assert_eq!(
        plan.launcher_uid_packages,
        Some(("com.android.shell".to_string(), "com.app".to_string()))
    );
    assert!(plan.report.unwrap().is_launcher_activity);
    let plan = h.on_item(call.clone(), false, true);
    assert_eq!(plan.report, None);
    assert_eq!(plan.launcher_uid_packages, None);
    let enabled = uprobestats::bpf_map::disruptive_app::ComponentEnabledSettingCall { new_state: 1, ..call };
    let plan = h.on_item(enabled, true, false);
    assert_eq!((plan.report, plan.launcher_uid_packages), (None, None));
    let broken = ComponentEnabledSetting { class_name: b"Main".to_vec(), ..data };
    assert_eq!(h.decode(&broken), Err(HandlerError::CStr(CStrError::MissingNul)));
}

#[test]
fn bind_service_locked_plans() {
    let mut h = BindServiceLockedHandler::default();
    let data = BindServiceLocked {
        intent_package: b"\0".to_vec(),
        intent_action: b"act\0".to_vec(),
        intent_component_name_package: b"com.target\0".to_vec(),
        intent_component_name_class: b"Svc\0".to_vec(),
        bind_flags: 0x00100001,
        calling_package: b"com.caller\0".to_vec(),
    };
    let b = h.on_item(&data, false).unwrap().unwrap();
    assert_eq!((b.binder_package.as_str(), b.bindee_package.as_str()), ("com.caller", "com.target"));
    assert_eq!(b.report.unwrap().flags, 0x00100001);
    let wide = BindServiceLocked { bind_flags: 0x1_0010_0000, ..data.clone() };
    assert_eq!(h.on_item(&wide, false).unwrap().unwrap().report.unwrap().flags, 0x1_0010_0000);
    let user = h.on_item(&data, true).unwrap().unwrap();
    assert!(user.report.is_none());
    let plain = BindServiceLocked { bind_flags: 1, ..data.clone() };
    assert_eq!(h.on_item(&plain, false), Ok(None));
    let named = BindServiceLocked { intent_package: b"com.named\0".to_vec(), ..data.clone() };
    assert_eq!(h.on_item(&named, false).unwrap().unwrap().bindee_package, "com.named");
    let broken = BindServiceLocked { intent_action: vec![], ..data };
    assert_eq!(h.on_item(&broken, false), Err(HandlerError::CStr(CStrError::MissingNul)));
}

#[test]
fn small_values() {
    assert_eq!(UpdateMapElemFlags::Upsert.bits(), 0);
    assert_eq!(UpdateMapElemFlags::Insert.bits(), 1);
    assert_eq!(UpdateMapElemFlags::Update.bits(), 2);
    assert_eq!(ForegroundActivitiesState::from_raw(1), ForegroundActivitiesState::HasForegroundActivities);
    assert_eq!(ForegroundActivitiesState::from_raw(0), ForegroundActivitiesState::NoForegroundActivities);
    assert_eq!(ForegroundActivitiesState::from_raw(7), ForegroundActivitiesState::NoForegroundActivities);
    assert_eq!(ForegroundActivitiesState::HasForegroundActivities.value(), 1);
}
