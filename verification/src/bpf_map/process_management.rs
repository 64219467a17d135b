//! Handlers of the process management ring buffers: temporary allow list changes.
use super::{atom_id_of, atom_of, c_str_text, field_text, HandlerError, StatsEvent, StatsValue};
use crate::config_resolver::ResolvedTask;
use vstd::prelude::*;

verus! {

/// A change of a uid's temporary allow list state.
#[derive(Clone, Copy, Debug, Default, PartialEq, Eq)]
pub struct SetUidTempAllowlistStateRecord {
    /// The uid.
    pub uid: u32,
    /// Whether the uid is now on the allow list.
    pub on_allowlist: bool,
}

/// An update of the device idle temporary allow list.
#[derive(Clone, Debug, Default, PartialEq, Eq)]
pub struct UpdateDeviceIdleTempAllowlistRecord {
    /// The uid whose state changes.
    pub changing_uid: i32,
    /// Whether the uid is added.
    pub adding: bool,
    /// How long it stays, in milliseconds.
    pub duration_ms: i64,
    /// The kind of allow listing.
    pub type_: i32,
    /// The reason code.
    pub reason_code: i32,
    /// The reason, as a NUL-terminated C string.
    pub reason: Vec<u8>,
    /// The uid of the caller.
    pub calling_uid: i32,
}

/// Reports changes of a uid's temporary allow list state.
#[derive(Clone, Copy, Debug, Default, PartialEq, Eq)]
pub struct SetUidTempAllowlistStateRecordHandler {}

/// Reports updates of the device idle temporary allow list.
#[derive(Clone, Copy, Debug, Default, PartialEq, Eq)]
pub struct UpdateDeviceIdleTempAllowlistRecordHandler {}

impl SetUidTempAllowlistStateRecordHandler {
    /// The path of the ring buffer this handler reads.
    pub const MAP_PATH: &'static str = "/sys/fs/bpf/uprobestats/map_ProcessManagement_output_buf";

    /// The event to write for a record: none when the task reports nothing; else the
    /// uid and whether it is on the allow list, into the configured atom.
    pub fn on_item(&mut self, task: &ResolvedTask, data: &SetUidTempAllowlistStateRecord) -> (r:
        Result<Option<StatsEvent>, HandlerError>)
        ensures
            match task.task.statsd_logging_config {
                None => r == Ok::<Option<StatsEvent>, HandlerError>(None),
                Some(c) => match atom_of(c) {
                    Err(e) => r == Err::<Option<StatsEvent>, HandlerError>(e),
                    Ok(atom) => if data.uid > i32::MAX {
                        r == Err::<Option<StatsEvent>, HandlerError>(HandlerError::ValueOutOfRange)
                    } else {
                        r matches Ok(Some(ev)) && ev.atom_id == atom && ev.values@ == seq![
                            StatsValue::Int32(data.uid as i32),
                            StatsValue::Bool(data.on_allowlist),
                        ]
                    },
                },
            },
    {
        let config = match &task.task.statsd_logging_config {
            None => return Ok(None),
            Some(c) => c,
        };
        let atom_id = match atom_id_of(config) {
            Err(e) => return Err(e),
            Ok(a) => a,
        };
        if data.uid > 2147483647u32 {
            return Err(HandlerError::ValueOutOfRange);
        }
        let mut values: Vec<StatsValue> = Vec::new();
        values.push(StatsValue::Int32(data.uid as i32));
        values.push(StatsValue::Bool(data.on_allowlist));
        assert(values@ =~= seq![
            StatsValue::Int32(data.uid as i32),
            StatsValue::Bool(data.on_allowlist),
        ]);
        Ok(Some(StatsEvent { atom_id, values }))
    }
}

impl UpdateDeviceIdleTempAllowlistRecordHandler {
    /// The path of the ring buffer this handler reads.
    pub const MAP_PATH: &'static str =
        "/sys/fs/bpf/uprobestats/map_ProcessManagement_update_device_idle_temp_allowlist_records";

    /// The event to write for a record: none when the task reports nothing; else, into
    /// the configured atom, the changing uid, whether it is added, the duration, the
    /// kind, the reason code, the reason text and the calling uid.
    pub fn on_item(&mut self, task: &ResolvedTask, data: &UpdateDeviceIdleTempAllowlistRecord) -> (r:
        Result<Option<StatsEvent>, HandlerError>)
        ensures
            match task.task.statsd_logging_config {
                None => r == Ok::<Option<StatsEvent>, HandlerError>(None),
                Some(c) => match atom_of(c) {
                    Err(e) => r == Err::<Option<StatsEvent>, HandlerError>(e),
                    Ok(atom) => match c_str_text(data.reason@) {
                        Err(e) => r == Err::<Option<StatsEvent>, HandlerError>(
                            HandlerError::CStr(e),
                        ),
                        Ok(reason) => r matches Ok(Some(ev)) && ev.atom_id == atom
                            && ev.values@.len() == 7 && ev.values@[0] == StatsValue::Int32(
                            data.changing_uid,
                        ) && ev.values@[1] == StatsValue::Bool(data.adding) && ev.values@[2]
                            == StatsValue::Int64(data.duration_ms) && ev.values@[3]
                            == StatsValue::Int32(data.type_) && ev.values@[4] == StatsValue::Int32(
                            data.reason_code,
                        ) && (ev.values@[5] matches StatsValue::Str(s) && s@ == reason)
                            && ev.values@[6] == StatsValue::Int32(data.calling_uid),
                    },
                },
            },
    {
        let config = match &task.task.statsd_logging_config {
            None => return Ok(None),
            Some(c) => c,
        };
        let atom_id = match atom_id_of(config) {
            Err(e) => return Err(e),
            Ok(a) => a,
        };
        let reason = match field_text(data.reason.as_slice()) {
            Err(e) => return Err(e),
            Ok(s) => s,
        };
        let mut values: Vec<StatsValue> = Vec::new();
        values.push(StatsValue::Int32(data.changing_uid));
        values.push(StatsValue::Bool(data.adding));
        values.push(StatsValue::Int64(data.duration_ms));
        values.push(StatsValue::Int32(data.type_));
        values.push(StatsValue::Int32(data.reason_code));
        values.push(StatsValue::Str(reason));
        values.push(StatsValue::Int32(data.calling_uid));
        Ok(Some(StatsEvent { atom_id, values }))
    }
}

} // verus!
