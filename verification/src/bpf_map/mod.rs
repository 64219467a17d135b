//! Records read from BPF ring buffers ("maps"): which handler reads which map, how the
//! C strings in records are read, and the statsd events that handlers produce.
use crate::config::StatsdLoggingConfig;
use crate::text::{first_index, str_eq, utf8_decode};
use vstd::prelude::*;
use vstd::utf8::{decode_utf8, valid_utf8};

pub mod disruptive_app;
pub mod generic_instrumentation;
pub mod process_management;

verus! {

/// Why the bytes of a C string field cannot be read as text.
#[derive(Clone, Copy, Debug, PartialEq, Eq)]
pub enum CStrError {
    /// The field holds no NUL terminator.
    MissingNul,
    /// The bytes before the terminator are not UTF-8.
    InvalidUtf8,
}

/// The text of a NUL-terminated C string held in `bytes`: the bytes before the first NUL,
/// decoded as UTF-8.
pub open spec fn c_str_text(bytes: Seq<u8>) -> Result<Seq<char>, CStrError> {
    match first_index(bytes, 0u8) {
        None => Err(CStrError::MissingNul),
        Some(i) => if valid_utf8(bytes.take(i)) {
            Ok(decode_utf8(bytes.take(i)))
        } else {
            Err(CStrError::InvalidUtf8)
        },
    }
}

/// The text of a result that holds a string.
pub open spec fn text_result<E>(r: Result<String, E>) -> Result<Seq<char>, E> {
    match r {
        Ok(s) => Ok(s@),
        Err(e) => Err(e),
    }
}

/// Reads the NUL-terminated C string held in `bytes` as text.
pub fn bytes_as_str(bytes: &[u8]) -> (r: Result<String, CStrError>)
    ensures
        text_result(r) == c_str_text(bytes@),
{
    let mut i: usize = 0;
    while i < bytes.len()
        invariant
            i <= bytes@.len(),
            forall|k: int| 0 <= k < i ==> bytes@[k] != 0u8,
        decreases bytes@.len() - i,
    {
        if bytes[i] == 0u8 {
            proof {
                crate::text::lemma_first_index_is(bytes@, 0u8, i as int);
            }
            let (head, _) = bytes.split_at(i);
            assert(head@ =~= bytes@.take(i as int));
            return match utf8_decode(head) {
                None => Err(CStrError::InvalidUtf8),
                Some(s) => Ok(s),
            };
        }
        i += 1;
    }
    proof {
        crate::text::lemma_first_index_none(bytes@, 0u8);
    }
    Err(CStrError::MissingNul)
}

/// A value written into a statsd event.
#[derive(Clone, Debug, PartialEq, Eq)]
pub enum StatsValue {
    /// A 32-bit integer.
    Int32(i32),
    /// A 64-bit integer.
    Int64(i64),
    /// A boolean.
    Bool(bool),
    /// A string.
    Str(String),
}

/// A statsd event: an atom and the values written into it, in order.
#[derive(Clone, Debug, PartialEq, Eq)]
pub struct StatsEvent {
    /// The atom.
    pub atom_id: u32,
    /// The values.
    pub values: Vec<StatsValue>,
}

/// Why a record cannot be handled.
#[derive(Clone, Copy, Debug, PartialEq, Eq)]
pub enum HandlerError {
    /// A C string field of the record cannot be read.
    CStr(CStrError),
    /// The task's statsd logging configuration names no atom.
    AtomIdMissing,
    /// The atom id is not a valid `u32`.
    AtomIdOutOfRange,
    /// A value of the record does not fit in the statsd type it is written as.
    ValueOutOfRange,
    /// A primitive argument position is below the first argument register.
    ArgumentPositionOutOfRange,
    /// The map path has no handler.
    UnsupportedMapPath,
}

/// Reads a C string field of a record.
pub fn field_text(bytes: &[u8]) -> (r: Result<String, HandlerError>)
    ensures
        match c_str_text(bytes@) {
            Ok(s) => r matches Ok(v) && v@ == s,
            Err(e) => r == Err::<String, HandlerError>(HandlerError::CStr(e)),
        },
{
    match bytes_as_str(bytes) {
        Ok(s) => Ok(s),
        Err(e) => Err(HandlerError::CStr(e)),
    }
}

/// The atom that a statsd logging configuration names, when it names a valid one.
pub open spec fn atom_of(config: StatsdLoggingConfig) -> Result<u32, HandlerError> {
    match config.atom_id {
        None => Err(HandlerError::AtomIdMissing),
        Some(a) => if 0 <= a <= u32::MAX {
            Ok(a as u32)
        } else {
            Err(HandlerError::AtomIdOutOfRange)
        },
    }
}

/// The atom that a statsd logging configuration names.
pub fn atom_id_of(config: &StatsdLoggingConfig) -> (r: Result<u32, HandlerError>)
    ensures
        r == atom_of(*config),
{
    match config.atom_id {
        None => Err(HandlerError::AtomIdMissing),
        Some(a) => if 0 <= a && a <= 4294967295i64 {
            Ok(a as u32)
        } else {
            Err(HandlerError::AtomIdOutOfRange)
        },
    }
}

/// Java arguments start at this register in the records of generic instrumentation.
pub const JAVA_ARGUMENT_REGISTER_OFFSET: i32 = 2;

/// The handlers of the BPF ring buffers that a task can read.
#[derive(Clone, Copy, Debug, PartialEq, Eq)]
pub enum HandlerKind {
    /// `bindServiceLocked` calls.
    BindServiceLocked,
    /// Call timestamps of generic instrumentation.
    CallTimestamp,
    /// Call registers of generic instrumentation.
    CallResult,
    /// `setComponentEnabledSetting` calls.
    ComponentEnabledSetting,
    /// Changes of a uid's temporary allow list state.
    SetUidTempAllowlistStateRecord,
    /// Updates of the device idle temporary allow list.
    UpdateDeviceIdleTempAllowlistRecord,
}

/// The number of handlers.
pub const HANDLER_COUNT: usize = 6;

/// The `i`-th handler.
pub open spec fn handler_at(i: int) -> HandlerKind {
    if i == 0 {
        HandlerKind::BindServiceLocked
    } else if i == 1 {
        HandlerKind::CallTimestamp
    } else if i == 2 {
        HandlerKind::CallResult
    } else if i == 3 {
        HandlerKind::ComponentEnabledSetting
    } else if i == 4 {
        HandlerKind::SetUidTempAllowlistStateRecord
    } else {
        HandlerKind::UpdateDeviceIdleTempAllowlistRecord
    }
}

impl HandlerKind {
    /// The path of the ring buffer the handler reads.
    pub open spec fn spec_map_path(self) -> Seq<char> {
        match self {
            HandlerKind::BindServiceLocked => disruptive_app::BindServiceLockedHandler::MAP_PATH@,
            HandlerKind::CallTimestamp => generic_instrumentation::CallTimestampHandler::MAP_PATH@,
            HandlerKind::CallResult => generic_instrumentation::CallResultHandler::MAP_PATH@,
            HandlerKind::ComponentEnabledSetting => disruptive_app::ComponentEnabledSettingHandler::MAP_PATH@,
            HandlerKind::SetUidTempAllowlistStateRecord => process_management::SetUidTempAllowlistStateRecordHandler::MAP_PATH@,
            HandlerKind::UpdateDeviceIdleTempAllowlistRecord => process_management::UpdateDeviceIdleTempAllowlistRecordHandler::MAP_PATH@,
        }
    }

    /// The path of the ring buffer the handler reads.
    pub fn map_path(self) -> (r: &'static str)
        ensures
            r@ == self.spec_map_path(),
    {
        match self {
            HandlerKind::BindServiceLocked => disruptive_app::BindServiceLockedHandler::MAP_PATH,
            HandlerKind::CallTimestamp => generic_instrumentation::CallTimestampHandler::MAP_PATH,
            HandlerKind::CallResult => generic_instrumentation::CallResultHandler::MAP_PATH,
            HandlerKind::ComponentEnabledSetting => disruptive_app::ComponentEnabledSettingHandler::MAP_PATH,
            HandlerKind::SetUidTempAllowlistStateRecord => process_management::SetUidTempAllowlistStateRecordHandler::MAP_PATH,
            HandlerKind::UpdateDeviceIdleTempAllowlistRecord => process_management::UpdateDeviceIdleTempAllowlistRecordHandler::MAP_PATH,
        }
    }
}

/// The `i`-th handler.
fn handler_at_exec(i: usize) -> (r: HandlerKind)
    requires
        i < HANDLER_COUNT,
    ensures
        r == handler_at(i as int),
{
    if i == 0 {
        HandlerKind::BindServiceLocked
    } else if i == 1 {
        HandlerKind::CallTimestamp
    } else if i == 2 {
        HandlerKind::CallResult
    } else if i == 3 {
        HandlerKind::ComponentEnabledSetting
    } else if i == 4 {
        HandlerKind::SetUidTempAllowlistStateRecord
    } else {
        HandlerKind::UpdateDeviceIdleTempAllowlistRecord
    }
}

/// Every handler is one of the listed ones.
pub proof fn lemma_handler_listed(k: HandlerKind)
    ensures
        exists|i: int| 0 <= i < HANDLER_COUNT && handler_at(i) == k,
{
    match k {
        HandlerKind::BindServiceLocked => assert(handler_at(0) == k),
        HandlerKind::CallTimestamp => assert(handler_at(1) == k),
        HandlerKind::CallResult => assert(handler_at(2) == k),
        HandlerKind::ComponentEnabledSetting => assert(handler_at(3) == k),
        HandlerKind::SetUidTempAllowlistStateRecord => assert(handler_at(4) == k),
        HandlerKind::UpdateDeviceIdleTempAllowlistRecord => assert(handler_at(5) == k),
    }
}

/// Distinct handlers read distinct ring buffers.
pub proof fn lemma_map_paths_distinct(a: HandlerKind, b: HandlerKind)
    ensures
        a.spec_map_path() == b.spec_map_path() ==> a == b,
{
    reveal_strlit("/sys/fs/bpf/uprobestats/map_DisruptiveApp_BindServiceLocked_output_buf");
    reveal_strlit("/sys/fs/bpf/uprobestats/map_GenericInstrumentation_call_timestamp_buf");
    reveal_strlit("/sys/fs/bpf/uprobestats/map_GenericInstrumentation_call_detail_buf");
    reveal_strlit("/sys/fs/bpf/uprobestats/map_DisruptiveApp_ComponentEnabledSetting_output_buf");
    reveal_strlit("/sys/fs/bpf/uprobestats/map_ProcessManagement_output_buf");
    reveal_strlit(
        "/sys/fs/bpf/uprobestats/map_ProcessManagement_update_device_idle_temp_allowlist_records",
    );
    if a.spec_map_path() == b.spec_map_path() {
        assert(a.spec_map_path().len() == b.spec_map_path().len());
    }
}

/// Chooses the handler whose poll loop reads the given ring buffer; a path that no
/// handler reads is unsupported.
pub fn poll_registry(map_path: &str) -> (r: Result<HandlerKind, HandlerError>)
    ensures
        r matches Ok(k) ==> k.spec_map_path() == map_path@,
        forall|k: HandlerKind| k.spec_map_path() == map_path@ ==> r == Ok::<HandlerKind, HandlerError>(k),
        r is Err ==> r == Err::<HandlerKind, HandlerError>(HandlerError::UnsupportedMapPath)
            && forall|k: HandlerKind| k.spec_map_path() != map_path@,
{
    let mut i: usize = 0;
    while i < HANDLER_COUNT
        invariant
            i <= HANDLER_COUNT,
            forall|j: int| 0 <= j < i ==> (#[trigger] handler_at(j)).spec_map_path() != map_path@,
        decreases HANDLER_COUNT - i,
    {
        let k = handler_at_exec(i);
        if str_eq(k.map_path(), map_path) {
            proof {
                assert forall|k2: HandlerKind| k2.spec_map_path() == map_path@ implies k2 == k by {
                    lemma_map_paths_distinct(k2, k);
                }
            }
            return Ok(k);
        }
        i += 1;
    }
    proof {
        assert forall|k: HandlerKind| k.spec_map_path() != map_path@ by {
            lemma_handler_listed(k);
            let i = choose|i: int| 0 <= i < HANDLER_COUNT && handler_at(i) == k;
            assert(handler_at(i).spec_map_path() != map_path@);
        }
    }
    Err(HandlerError::UnsupportedMapPath)
}

/// The static properties of a BPF map: where it is, and how its keys and values are
/// converted to and from their C representations.
pub trait BpfMap {
    /// The path to the BPF map in the BPF file system.
    const MAP_PATH: &'static str;

    /// The key, as the program sees it.
    type K;

    /// The value, as the program sees it.
    type V;

    /// The C-compatible representation of the key.
    type CKey: Copy;

    /// The C-compatible representation of the value.
    type CValue: Copy;

    /// Converts a key to its C representation.
    fn to_c_key(key: &Self::K) -> Self::CKey;

    /// Converts a value to its C representation.
    fn to_c_value(value: &Self::V) -> Self::CValue;

    /// Converts a C value back to its own representation.
    fn from_c_value(value: &Self::CValue) -> Self::V;

    /// Converts a C key back to its own representation.
    fn from_c_key(key: &Self::CKey) -> Self::K;
}

} // verus!
