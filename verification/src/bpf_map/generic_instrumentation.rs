//! Handlers of the generic instrumentation ring buffers: call timestamps, and the
//! registers of calls, from which primitive Java arguments are reported.
use super::{atom_id_of, atom_of, HandlerError, StatsEvent, StatsValue, JAVA_ARGUMENT_REGISTER_OFFSET};
use crate::config_resolver::ResolvedTask;
use crate::seqs::{first_some, lemma_first_some_all, lemma_first_some_prefix, lemma_first_some_step};
use vstd::prelude::*;

verus! {

/// A call timestamp record.
#[derive(Clone, Copy, Debug, Default, PartialEq, Eq)]
pub struct CallTimestamp {
    /// The event.
    pub event: u32,
    /// When the call happened, in nanoseconds.
    pub timestamp_ns: u64,
}

/// A call record: the program counter and the registers at the call.
#[derive(Clone, Debug, Default, PartialEq, Eq)]
pub struct CallResult {
    /// The program counter.
    pub pc: u64,
    /// The registers.
    pub regs: Vec<u64>,
}

/// Reports call timestamps.
#[derive(Clone, Copy, Debug, Default, PartialEq, Eq)]
pub struct CallTimestampHandler {}

/// Reports primitive arguments of calls.
#[derive(Clone, Copy, Debug, Default, PartialEq, Eq)]
pub struct CallResultHandler {}

impl CallTimestampHandler {
    /// The path of the ring buffer this handler reads.
    pub const MAP_PATH: &'static str =
        "/sys/fs/bpf/uprobestats/map_GenericInstrumentation_call_timestamp_buf";

    /// The event to write for a call timestamp: none when the task reports nothing;
    /// else the event and the timestamp, into the configured atom.
    pub fn on_item(&mut self, task: &ResolvedTask, data: &CallTimestamp) -> (r: Result<
        Option<StatsEvent>,
        HandlerError,
    >)
        ensures
            match task.task.statsd_logging_config {
                None => r == Ok::<Option<StatsEvent>, HandlerError>(None),
                Some(c) => match atom_of(c) {
                    Err(e) => r == Err::<Option<StatsEvent>, HandlerError>(e),
                    Ok(atom) => if data.event > i32::MAX || data.timestamp_ns > i64::MAX {
                        r == Err::<Option<StatsEvent>, HandlerError>(HandlerError::ValueOutOfRange)
                    } else {
                        r matches Ok(Some(ev)) && ev.atom_id == atom && ev.values@ == seq![
                            StatsValue::Int32(data.event as i32),
                            StatsValue::Int64(data.timestamp_ns as i64),
                        ]
                    },
                },
            },
    {
        let config = match &task.task.statsd_logging_config {
            None => return Ok(None),
            Some(c) => c,
        };
        let atom_id = match atom_id_of(config) {
            Err(e) => return Err(e),
            Ok(a) => a,
        };
        if data.event > 2147483647u32 || data.timestamp_ns > 9223372036854775807u64 {
            return Err(HandlerError::ValueOutOfRange);
        }
        let mut values: Vec<StatsValue> = Vec::new();
        values.push(StatsValue::Int32(data.event as i32));
        values.push(StatsValue::Int64(data.timestamp_ns as i64));
        assert(values@ =~= seq![
            StatsValue::Int32(data.event as i32),
            StatsValue::Int64(data.timestamp_ns as i64),
        ]);
        Ok(Some(StatsEvent { atom_id, values }))
    }
}

/// The register that holds the argument at a position.
pub open spec fn register_of(position: i32) -> int {
    JAVA_ARGUMENT_REGISTER_OFFSET + position
}

/// What an argument position decides: an error when it is below the first argument
/// register, or when its register does not hold an `i32`.
pub open spec fn position_verdict(regs: Seq<u64>) -> spec_fn(i32) -> Option<HandlerError> {
    |p: i32|
        if register_of(p) < 0 {
            Some(HandlerError::ArgumentPositionOutOfRange)
        } else if regs[register_of(p)] > i32::MAX {
            Some(HandlerError::ValueOutOfRange)
        } else {
            None
        }
}

/// Reading the argument at a position stays within the integers and the registers.
pub open spec fn position_readable(regs_len: int, p: i32) -> bool {
    &&& register_of(p) <= i32::MAX
    &&& register_of(p) >= 0 ==> register_of(p) < regs_len
}

/// The value of the argument at a position.
pub open spec fn argument_value(regs: Seq<u64>) -> spec_fn(i32) -> StatsValue {
    |p: i32| StatsValue::Int32(regs[register_of(p)] as i32)
}

/// A call whose configured positions all name registers that exist and hold an `i32`
/// is reported in full: no position fails, and reading each one stays within the
/// registers (whose number, that of a fixed C array, fits in an `i32`).
pub proof fn lemma_readable_positions_report(regs: Seq<u64>, positions: Seq<i32>)
    requires
        regs.len() <= i32::MAX,
        forall|i: int|
            0 <= i < positions.len() ==> 0 <= register_of(#[trigger] positions[i]) < regs.len()
                && regs[register_of(positions[i])] <= i32::MAX,
    ensures
        first_some(positions, position_verdict(regs)) is None,
        forall|i: int|
            0 <= i < positions.len() ==> position_readable(regs.len() as int, #[trigger] positions[i]),
{
    let f = position_verdict(regs);
    crate::seqs::lemma_first_some_none(positions, f);
    assert forall|i: int| 0 <= i < positions.len() implies (#[trigger] f(positions[i])) is None by {
        assert(0 <= register_of(positions[i]) < regs.len());
    }
}

impl CallResultHandler {
    /// The path of the ring buffer this handler reads.
    pub const MAP_PATH: &'static str =
        "/sys/fs/bpf/uprobestats/map_GenericInstrumentation_call_detail_buf";

    /// The event to write for a call: none when the task reports nothing; else, into the
    /// configured atom, the argument at each configured position, in order, read from
    /// the register two past it.
    pub fn on_item(&mut self, task: &ResolvedTask, data: &CallResult) -> (r: Result<
        Option<StatsEvent>,
        HandlerError,
    >)
        requires
            task.task.statsd_logging_config matches Some(c) ==> atom_of(c) is Err || forall|i: int|
                0 <= i < c.primitive_argument_positions@.len() && first_some(
                    c.primitive_argument_positions@.take(i),
                    position_verdict(data.regs@),
                ) is None ==> position_readable(
                    data.regs@.len() as int,
                    #[trigger] c.primitive_argument_positions@[i],
                ),
        ensures
            match task.task.statsd_logging_config {
                None => r == Ok::<Option<StatsEvent>, HandlerError>(None),
                Some(c) => match atom_of(c) {
                    Err(e) => r == Err::<Option<StatsEvent>, HandlerError>(e),
                    Ok(atom) => match first_some(
                        c.primitive_argument_positions@,
                        position_verdict(data.regs@),
                    ) {
                        Some(e) => r == Err::<Option<StatsEvent>, HandlerError>(e),
                        None => r matches Ok(Some(ev)) && ev.atom_id == atom && ev.values@
                            == c.primitive_argument_positions@.map_values(
                            argument_value(data.regs@),
                        ),
                    },
                },
            },
    {
        let config = match &task.task.statsd_logging_config {
            None => return Ok(None),
            Some(c) => c,
        };
        let atom_id = match atom_id_of(config) {
            Err(e) => return Err(e),
            Ok(a) => a,
        };
        let positions = &config.primitive_argument_positions;
        let ghost f = position_verdict(data.regs@);
        let ghost g = argument_value(data.regs@);
        let mut values: Vec<StatsValue> = Vec::new();
        let mut i: usize = 0;
        while i < positions.len()
            invariant
                i <= positions@.len(),
                task.task.statsd_logging_config == Some(*config),
                atom_of(*config) == Ok::<u32, HandlerError>(atom_id),
                positions@ == config.primitive_argument_positions@,
                f == position_verdict(data.regs@),
                g == argument_value(data.regs@),
                forall|k: int|
                    0 <= k < positions@.len() && first_some(positions@.take(k), f) is None
                        ==> position_readable(data.regs@.len() as int, #[trigger] positions@[k]),
                first_some(positions@.take(i as int), f) is None,
                values@ == positions@.take(i as int).map_values(g),
            decreases positions@.len() - i,
        {
            proof {
                lemma_first_some_step(positions@, f, i as int);
            }
            let p = positions[i];
            assert(position_readable(data.regs@.len() as int, positions@[i as int]));
            let register = JAVA_ARGUMENT_REGISTER_OFFSET + p;
            if register < 0 {
                proof {
                    lemma_first_some_prefix(positions@, f, i + 1);
                }
                return Err(HandlerError::ArgumentPositionOutOfRange);
            }
            let value = data.regs[register as usize];
            if value > 2147483647u64 {
                proof {
                    lemma_first_some_prefix(positions@, f, i + 1);
                }
                return Err(HandlerError::ValueOutOfRange);
            }
            values.push(StatsValue::Int32(value as i32));
            assert(values@ =~= positions@.take(i + 1int).map_values(g));
            i += 1;
        }
        proof {
            lemma_first_some_all(positions@, f);
            assert(positions@.take(positions@.len() as int) =~= positions@);
        }
        Ok(Some(StatsEvent { atom_id, values }))
    }
}

} // verus!
