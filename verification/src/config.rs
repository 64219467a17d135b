//! The configuration that describes what to probe and how to report it:
//! a list of tasks, each with the probes to attach and the BPF maps to read.
use vstd::prelude::*;

verus! {

/// How the process that a task probes is chosen.
#[derive(Clone, Copy, Debug, PartialEq, Eq)]
pub enum TargetProcessSelection {
    /// No selection given: the process is found by name.
    Unknown,
    /// The running process with the given name.
    SpecificProcessName,
    /// The next start of the app process with the given name.
    SpecificAppProcessOnStart,
    /// The next start of any app process.
    AnyAppProcessOnStart,
}

/// A Binder interface whose transactions a probe filters, with the method codes kept.
#[derive(Clone, Debug, Default, PartialEq, Eq)]
pub struct BinderTransactionFilter {
    /// The interface descriptor.
    pub interface_name: Option<String>,
    /// The transaction codes of the interface's methods.
    pub method_ids: Vec<i32>,
}

/// How the records a task reads are reported as statsd atoms.
#[derive(Clone, Debug, Default, PartialEq, Eq)]
pub struct StatsdLoggingConfig {
    /// The atom to write.
    pub atom_id: Option<i64>,
    /// Positions of the primitive Java arguments to report.
    pub primitive_argument_positions: Vec<i32>,
}

/// One probe: a BPF program and the method it attaches to.
#[derive(Clone, Debug, Default, PartialEq, Eq)]
pub struct ProbeConfig {
    /// Name of the BPF program to attach.
    pub bpf_name: Option<String>,
    /// Compiled code files that may hold the method.
    pub file_paths: Vec<String>,
    /// The method's signature as the code files list it: `<return type> <class>.<method>(<params>)`.
    pub method_signature: Option<String>,
    /// The method's fully qualified class name.
    pub fully_qualified_class_name: Option<String>,
    /// The method's name.
    pub method_name: Option<String>,
    /// The method's fully qualified parameter types.
    pub fully_qualified_parameters: Vec<String>,
    /// Binder transactions to keep, for the Binder transaction probe.
    pub binder_transaction_filters: Vec<BinderTransactionFilter>,
}

/// One task: probes to attach to one process for a while, and the maps to read meanwhile.
#[derive(Clone, Debug, Default, PartialEq, Eq)]
pub struct Task {
    /// The probes.
    pub probe_configs: Vec<ProbeConfig>,
    /// Names of the BPF maps to read.
    pub bpf_maps: Vec<String>,
    /// Name of the target process.
    pub target_process_name: Option<String>,
    /// How long the task runs, in seconds.
    pub duration_seconds: Option<i32>,
    /// How records are reported, if they are.
    pub statsd_logging_config: Option<StatsdLoggingConfig>,
    /// How the target process is chosen.
    pub target_process_selection: Option<TargetProcessSelection>,
}

/// A whole configuration.
#[derive(Clone, Debug, Default, PartialEq, Eq)]
pub struct UprobestatsConfig {
    /// The tasks, in order.
    pub tasks: Vec<Task>,
}

/// The text of an optional string.
pub open spec fn opt_view(s: Option<String>) -> Option<Seq<char>> {
    match s {
        Some(v) => Some(v@),
        None => None,
    }
}

} // verus!
