//! Resolution of a configuration into a task and the concrete probes to attach.
use crate::config::{
    BinderTransactionFilter, ProbeConfig, Task, TargetProcessSelection,
    UprobestatsConfig,
};
use crate::process::{lookup_for, process_lookup, ProcessError, ProcessLookup, ResolvedProcess};
use crate::seqs::{first_some, lemma_first_some_all, lemma_first_some_prefix, lemma_first_some_step};
use crate::text::{contains, str_contains};
use vstd::prelude::*;

verus! {

/// The device's feature flags that gate BPF programs and the way offsets are found.
#[derive(Clone, Copy, Debug, Default, PartialEq, Eq)]
pub struct FeatureFlags {
    /// Programs and maps that monitor disruptive app activity are enabled.
    pub monitor_disruptive_app_activities: bool,
    /// Bitmap snapshot programs are enabled.
    pub enable_bitmap_snapshot: bool,
    /// Bitmap allocation instrumentation is enabled.
    pub enable_bitmap_instrumentation: bool,
    /// Binder transaction programs are enabled.
    pub enable_binder_transaction: bool,
    /// App starts are observed through the activity manager, and offset queries retried.
    pub use_process_observer_api: bool,
}

/// The directory of the BPF file system that holds the programs and maps.
pub const BPF_FS_ROOT: &'static str = "/sys/fs/bpf/uprobestats/";

/// The BPF program that probes Binder transactions.
pub const BINDER_BPF_PROGRAM_NAME: &'static str = "Binder_uprobe_exec_transact_internal";

/// Whether the BPF program or map with the given name is enabled by the flags.
pub open spec fn bpf_file_enabled(name: Seq<char>, flags: FeatureFlags) -> bool {
    if contains(name, "DisruptiveApp"@) {
        flags.monitor_disruptive_app_activities
    } else if contains(name, "prog_BitmapAllocation_uprobe_bitmap_creation_for_snapshot"@)
        || contains(name, "prog_BitmapAllocation_uprobe_apply_free_function"@) {
        flags.enable_bitmap_snapshot
    } else if contains(name, "BitmapAllocation"@) {
        flags.enable_bitmap_instrumentation || flags.enable_bitmap_snapshot
    } else if contains(name, "Binder"@) {
        flags.enable_binder_transaction
    } else {
        true
    }
}

/// The two bitmap snapshot programs (those whose name contains
/// `prog_BitmapAllocation_uprobe_bitmap_creation_for_snapshot` or
/// `prog_BitmapAllocation_uprobe_apply_free_function`, and not `DisruptiveApp`) are
/// enabled exactly when the bitmap snapshot flag is set, whatever the other flags.
pub proof fn lemma_snapshot_programs_follow_snapshot_flag(name: Seq<char>, flags: FeatureFlags)
    requires
        !contains(name, "DisruptiveApp"@),
        contains(name, "prog_BitmapAllocation_uprobe_bitmap_creation_for_snapshot"@) || contains(
            name,
            "prog_BitmapAllocation_uprobe_apply_free_function"@,
        ),
    ensures
        bpf_file_enabled(name, flags) == flags.enable_bitmap_snapshot,
{
}

/// Other bitmap allocation programs and maps (names with `BitmapAllocation`, not
/// `DisruptiveApp`, and neither snapshot program) are enabled when either bitmap flag
/// is set; names with `DisruptiveApp` follow the disruptive app flag alone.
pub proof fn lemma_bitmap_and_disruptive_gating(name: Seq<char>, flags: FeatureFlags)
    ensures
        contains(name, "DisruptiveApp"@) ==> bpf_file_enabled(name, flags)
            == flags.monitor_disruptive_app_activities,
        !contains(name, "DisruptiveApp"@) && !contains(
            name,
            "prog_BitmapAllocation_uprobe_bitmap_creation_for_snapshot"@,
        ) && !contains(name, "prog_BitmapAllocation_uprobe_apply_free_function"@) && contains(
            name,
            "BitmapAllocation"@,
        ) ==> bpf_file_enabled(name, flags) == (flags.enable_bitmap_instrumentation
            || flags.enable_bitmap_snapshot),
{
}

/// Binder programs and maps (names with `Binder` and none of `DisruptiveApp` and
/// `BitmapAllocation`) are enabled exactly when the Binder transaction flag is set.
pub proof fn lemma_binder_programs_follow_binder_flag(name: Seq<char>, flags: FeatureFlags)
    requires
        contains(name, "Binder"@),
        !contains(name, "DisruptiveApp"@),
        !contains(name, "BitmapAllocation"@),
        !contains(name, "prog_BitmapAllocation_uprobe_bitmap_creation_for_snapshot"@),
        !contains(name, "prog_BitmapAllocation_uprobe_apply_free_function"@),
    ensures
        bpf_file_enabled(name, flags) == flags.enable_binder_transaction,
{
}

/// Whether a program or map is enabled never depends on whether process observation is
/// used, and a name that mentions none of `DisruptiveApp`, `BitmapAllocation` and
/// `Binder` is always enabled.
pub proof fn lemma_ungated_names_enabled(name: Seq<char>, flags: FeatureFlags, other: FeatureFlags)
    requires
        other == (FeatureFlags { use_process_observer_api: !flags.use_process_observer_api, ..flags }),
    ensures
        bpf_file_enabled(name, flags) == bpf_file_enabled(name, other),
        !contains(name, "DisruptiveApp"@) && !contains(name, "BitmapAllocation"@) && !contains(
            name,
            "Binder"@,
        ) && !contains(name, "prog_BitmapAllocation_uprobe_bitmap_creation_for_snapshot"@)
            && !contains(name, "prog_BitmapAllocation_uprobe_apply_free_function"@)
            ==> bpf_file_enabled(name, flags),
{
}

/// The absolute path of the BPF program or map with the given name.
pub open spec fn bpf_path(name: Seq<char>) -> Seq<char> {
    BPF_FS_ROOT@ + name
}

/// Whether the BPF program or map with the given name is enabled by the flags.
pub fn is_bpf_file_enabled(bpf_prog_or_map_name: &str, flags: &FeatureFlags) -> (r: bool)
    ensures
        r == bpf_file_enabled(bpf_prog_or_map_name@, *flags),
{
    let name = bpf_prog_or_map_name;
    if str_contains(name, "DisruptiveApp") {
        flags.monitor_disruptive_app_activities
    } else if str_contains(name, "prog_BitmapAllocation_uprobe_bitmap_creation_for_snapshot")
        || str_contains(name, "prog_BitmapAllocation_uprobe_apply_free_function") {
        flags.enable_bitmap_snapshot
    } else if str_contains(name, "BitmapAllocation") {
        flags.enable_bitmap_instrumentation || flags.enable_bitmap_snapshot
    } else if str_contains(name, "Binder") {
        flags.enable_binder_transaction
    } else {
        true
    }
}

/// The absolute path of the BPF program or map with the given name.
pub fn prefix_bpf(name: &str) -> (r: String)
    ensures
        r@ == bpf_path(name@),
{
    let mut p = BPF_FS_ROOT.to_owned();
    p.append(name);
    p
}

/// The status of a failed call to a platform service: its exception code, and the
/// service-specific error code when the exception is service specific.
#[derive(Clone, Copy, Debug, PartialEq, Eq)]
pub struct ServiceStatus {
    /// The exception code.
    pub exception_code: i32,
    /// The service-specific error code.
    pub service_specific_error: i32,
}

/// Why a task or one of its probes cannot be resolved.
#[derive(Clone, Debug, PartialEq, Eq)]
pub enum ResolveError {
    /// The configuration has no task.
    NoTasks,
    /// The named BPF program or map is disabled by a flag.
    BpfFileDisabled(String),
    /// The task has no duration.
    DurationMissing,
    /// The task's duration is not positive.
    DurationNotPositive,
    /// The task's process cannot be looked up.
    Process(ProcessError),
    /// A probe names no BPF program.
    BpfNameMissing,
    /// A probe names a class but no method.
    MethodNameMissing,
    /// The task's uid is negative, so no target process can be described.
    NegativeUid(i32),
    /// No offsets are known for the named class.
    OffsetsNotFound(String),
    /// The method offset does not fit in an `i32`.
    MethodOffsetOutOfRange(u64),
    /// A probe names neither a class nor a method signature.
    MethodSignatureMissing,
    /// No code file holds an offset for the given method signature.
    OffsetNotFound(String),
    /// A Binder transaction probe has no filter.
    BinderFiltersMissing,
    /// A Binder transaction filter names no interface.
    BinderInterfaceNameMissing,
    /// A Binder transaction filter has no method id.
    BinderMethodIdsMissing,
    /// A Binder transaction filter has a negative method id.
    BinderMethodIdNegative(i32),
    /// The offsets query failed with the given status and is not retried.
    OffsetsQueryFailed(ServiceStatus),
    /// The offsets query still failed, with the given status, after the last retry.
    RetriesExhausted(ServiceStatus),
    /// The offsets query failed with an exception other than a service-specific one.
    UnexpectedStatus(ServiceStatus),
    /// The offsets query failed with a service-specific error other than an illegal state.
    UnexpectedServiceSpecificError(ServiceStatus),
}

/// A configuration's first task, checked, before its process is found.
#[derive(Debug)]
pub struct PendingTask {
    /// The task.
    pub task: Task,
    /// The task's duration in seconds, positive.
    pub duration_seconds: i32,
    /// The absolute paths of the task's BPF maps, each once.
    pub bpf_map_paths: Vec<String>,
    /// How the task's process is to be found.
    pub process_lookup: ProcessLookup,
}

/// A validated task together with its target process.
#[derive(Clone, Debug)]
pub struct ResolvedTask {
    /// The task.
    pub task: Task,
    /// The duration of the task in seconds.
    pub duration_seconds: i32,
    /// Name of the task's target process.
    pub process_name: String,
    /// The pid of the task's target process.
    pub pid: i32,
    /// The uid of the task's target process.
    pub uid: i32,
    /// The absolute paths of the BPF maps that the task reads, each once.
    pub bpf_map_paths: Vec<String>,
}

/// A map that a flag disables decides; the verdict is its name.
pub open spec fn disabled_map(flags: FeatureFlags) -> spec_fn(String) -> Option<Seq<char>> {
    |m: String|
        if bpf_file_enabled(m@, flags) {
            None
        } else {
            Some(m@)
        }
}

/// `p` is the text of one of `paths`.
pub open spec fn has_path(paths: Seq<String>, p: Seq<char>) -> bool {
    exists|a: int| 0 <= a < paths.len() && paths[a]@ == p
}

/// `p` is the path of one of the first `n` maps.
pub open spec fn path_of_some_map(maps: Seq<String>, n: int, p: Seq<char>) -> bool {
    exists|k: int| 0 <= k < n && bpf_path(maps[k]@) == p
}

/// `paths` holds the path of each map, and nothing else, each once.
pub open spec fn paths_of_maps(paths: Seq<String>, maps: Seq<String>) -> bool {
    &&& forall|a: int, b: int| 0 <= a < b < paths.len() ==> paths[a]@ != paths[b]@
    &&& forall|a: int| 0 <= a < paths.len() ==> #[trigger] path_of_some_map(maps, maps.len() as int, paths[a]@)
    &&& forall|k: int| 0 <= k < maps.len() ==> #[trigger] has_path(paths, bpf_path(maps[k]@))
}

/// Whether `paths` holds `p`.
fn has_path_exec(paths: &Vec<String>, p: &String) -> (r: bool)
    ensures
        r == has_path(paths@, p@),
{
    let mut a: usize = 0;
    while a < paths.len()
        invariant
            a <= paths@.len(),
            forall|b: int| 0 <= b < a ==> paths@[b]@ != p@,
        decreases paths@.len() - a,
    {
        if paths[a] == *p {
            return true;
        }
        a += 1;
    }
    false
}

/// The absolute paths of the given maps, each once, unless a flag disables one of them.
fn bpf_map_paths_of(maps: &Vec<String>, flags: &FeatureFlags) -> (r: Result<
    Vec<String>,
    ResolveError,
>)
    ensures
        match first_some(maps@, disabled_map(*flags)) {
            Some(name) => r matches Err(ResolveError::BpfFileDisabled(n)) && n@ == name,
            None => r matches Ok(paths) && paths_of_maps(paths@, maps@),
        },
{
    let ghost f = disabled_map(*flags);
    let mut paths: Vec<String> = Vec::new();
    let mut i: usize = 0;
    while i < maps.len()
        invariant
            i <= maps@.len(),
            f == disabled_map(*flags),
            first_some(maps@.take(i as int), f) is None,
            forall|a: int, b: int| 0 <= a < b < paths@.len() ==> paths@[a]@ != paths@[b]@,
            forall|a: int|
                0 <= a < paths@.len() ==> #[trigger] path_of_some_map(maps@, i as int, paths@[a]@),
            forall|k: int| 0 <= k < i ==> #[trigger] has_path(paths@, bpf_path(maps@[k]@)),
        decreases maps@.len() - i,
    {
        proof {
            lemma_first_some_step(maps@, f, i as int);
        }
        let name = &maps[i];
        if !is_bpf_file_enabled(name.as_str(), flags) {
            proof {
                lemma_first_some_prefix(maps@, f, i + 1);
            }
            return Err(ResolveError::BpfFileDisabled(name.clone()));
        }
        let path = prefix_bpf(name.as_str());
        let ghost old_paths = paths@;
        proof {
            assert forall|a: int| 0 <= a < old_paths.len() implies #[trigger] path_of_some_map(
                maps@,
                i + 1,
                old_paths[a]@,
            ) by {
                assert(path_of_some_map(maps@, i as int, old_paths[a]@));
                let k = choose|k: int| 0 <= k < i && bpf_path(maps@[k]@) == old_paths[a]@;
            }
        }
        if !has_path_exec(&paths, &path) {
            paths.push(path);
            proof {
                assert forall|k: int| 0 <= k < i + 1 implies #[trigger] has_path(
                    paths@,
                    bpf_path(maps@[k]@),
                ) by {
                    if k < i {
                        assert(has_path(old_paths, bpf_path(maps@[k]@)));
                        let a = choose|a: int| 0 <= a < old_paths.len() && old_paths[a]@ == bpf_path(maps@[k]@);
                        assert(paths@[a] == old_paths[a]);
                    } else {
                        assert(paths@[old_paths.len() as int]@ == bpf_path(maps@[k]@));
                    }
                }
                assert(path_of_some_map(maps@, i + 1, paths@[old_paths.len() as int]@));
            }
        } else {
            proof {
                assert forall|k: int| 0 <= k < i + 1 implies #[trigger] has_path(
                    paths@,
                    bpf_path(maps@[k]@),
                ) by {
                    if k == i {
                        assert(has_path(paths@, path@));
                    }
                }
            }
        }
        i += 1;
    }
    proof {
        lemma_first_some_all(maps@, f);
    }
    Ok(paths)
}

/// What `resolve_single_task` owes for a configuration whose first task is `task`:
/// its map paths, its duration, then how its process is found, checked in that order.
pub open spec fn pending_task_matches(
    r: Result<PendingTask, ResolveError>,
    task: Task,
    flags: FeatureFlags,
) -> bool {
    match first_some(task.bpf_maps@, disabled_map(flags)) {
        Some(name) => r matches Err(ResolveError::BpfFileDisabled(n)) && n@ == name,
        None => match task.duration_seconds {
            None => r == Err::<PendingTask, ResolveError>(ResolveError::DurationMissing),
            Some(d) => if d <= 0 {
                r == Err::<PendingTask, ResolveError>(ResolveError::DurationNotPositive)
            } else {
                let selection = match task.target_process_selection {
                    Some(s) => s,
                    None => TargetProcessSelection::Unknown,
                };
                match lookup_for(
                    task.target_process_name,
                    selection,
                    d as u64,
                    flags.use_process_observer_api,
                ) {
                    Err(e) => r == Err::<PendingTask, ResolveError>(ResolveError::Process(e)),
                    Ok(lookup) => r matches Ok(p) && p.task == task && p.duration_seconds == d
                        && p.process_lookup == lookup && paths_of_maps(
                        p.bpf_map_paths@,
                        task.bpf_maps@,
                    ),
                }
            }
        },
    }
}

/// Validates the first task of a configuration and decides how its process is found.
///
/// The task's BPF maps must all be enabled (the first disabled one is reported), its
/// duration given and positive; the selection (unknown when absent) then decides how
/// the process is found, and a lookup by name needs the task's process name.
pub fn resolve_single_task(config: UprobestatsConfig, flags: &FeatureFlags) -> (r: Result<
    PendingTask,
    ResolveError,
>)
    ensures
        config.tasks@.len() == 0 ==> r == Err::<PendingTask, ResolveError>(ResolveError::NoTasks),
        config.tasks@.len() > 0 ==> pending_task_matches(r, config.tasks@[0], *flags),
{
    let mut tasks = config.tasks;
    if tasks.len() == 0 {
        return Err(ResolveError::NoTasks);
    }
    let task = tasks.remove(0);
    let bpf_map_paths = match bpf_map_paths_of(&task.bpf_maps, flags) {
        Err(e) => return Err(e),
        Ok(p) => p,
    };
    let duration_seconds = match task.duration_seconds {
        None => return Err(ResolveError::DurationMissing),
        Some(d) => d,
    };
    if duration_seconds <= 0 {
        return Err(ResolveError::DurationNotPositive);
    }
    let selection = match task.target_process_selection {
        Some(s) => s,
        None => TargetProcessSelection::Unknown,
    };
    let lookup = match process_lookup(
        &task.target_process_name,
        selection,
        duration_seconds as u64,
        flags.use_process_observer_api,
    ) {
        Err(e) => return Err(ResolveError::Process(e)),
        Ok(l) => l,
    };
    Ok(PendingTask { task, duration_seconds, bpf_map_paths, process_lookup: lookup })
}

impl PendingTask {
    /// The resolved task, once its process is found.
    pub fn complete(self, process: ResolvedProcess) -> (r: ResolvedTask)
        ensures
            r.task == self.task,
            r.duration_seconds == self.duration_seconds,
            r.bpf_map_paths == self.bpf_map_paths,
            r.pid == process.pid,
            r.uid == process.uid,
            r.process_name == process.name,
    {
        ResolvedTask {
            task: self.task,
            duration_seconds: self.duration_seconds,
            process_name: process.name,
            pid: process.pid,
            uid: process.uid,
            bpf_map_paths: self.bpf_map_paths,
        }
    }
}


/// What to ask the platform for the code offsets of a method in a process.
#[derive(Clone, Debug, PartialEq, Eq)]
pub struct MethodQuery {
    /// The uid of the target process.
    pub uid: u32,
    /// The pid of the target process.
    pub pid: i32,
    /// The name of the target process.
    pub process_name: String,
    /// The method's fully qualified class name.
    pub class_name: String,
    /// The method's name.
    pub method_name: String,
    /// The method's fully qualified parameter types.
    pub parameters: Vec<String>,
}

/// The code offsets of a method, as the platform reports them.
#[derive(Clone, Debug, PartialEq, Eq)]
pub struct MethodFileOffsets {
    /// The code file that holds the method.
    pub container_path: String,
    /// The offset of the method's container within that file.
    pub container_offset: u64,
    /// The offset of the method within that file.
    pub method_offset: u64,
}

/// Where a probe's method offset comes from.
#[derive(Debug)]
pub enum OffsetSource {
    /// The platform's offsets query.
    Query(MethodQuery),
    /// A search of the probe's code files with `oatdump`.
    Oatdump(OatdumpSearch),
}

/// What is needed to resolve one probe.
#[derive(Debug)]
pub struct ProbePlan {
    /// Absolute path of the probe's BPF program.
    pub bpf_program_path: String,
    /// Where the method offset comes from.
    pub source: OffsetSource,
}

/// A validated probe together with the code file and offset of its method.
#[derive(Clone, Debug)]
pub struct ResolvedProbe {
    /// The probe's configuration.
    pub probe: ProbeConfig,
    /// The filename of the code that contains the probe's method.
    pub filename: String,
    /// The offset of the probe's method in the code file.
    pub offset: i32,
    /// Absolute path to the BPF program.
    pub bpf_program_path: String,
}

/// Copies of the given strings.
fn clone_strings(v: &Vec<String>) -> (r: Vec<String>)
    ensures
        r@ == v@,
{
    let mut r: Vec<String> = Vec::new();
    let mut i: usize = 0;
    while i < v.len()
        invariant
            i <= v@.len(),
            r@ == v@.take(i as int),
        decreases v@.len() - i,
    {
        r.push(v[i].clone());
        assert(r@ =~= v@.take(i + 1int));
        i += 1;
    }
    assert(v@.take(v@.len() as int) =~= v@);
    r
}

/// What `plan_probe` owes: the program name and flag, then, when a class is named, the
/// method name and the task's uid, else the method signature, in that order.
pub open spec fn plan_matches(
    r: Result<ProbePlan, ResolveError>,
    probe: ProbeConfig,
    task: ResolvedTask,
    flags: FeatureFlags,
) -> bool {
    match probe.bpf_name {
        None => r == Err::<ProbePlan, ResolveError>(ResolveError::BpfNameMissing),
        Some(name) => if !bpf_file_enabled(name@, flags) {
            r matches Err(ResolveError::BpfFileDisabled(n)) && n@ == name@
        } else {
            match probe.fully_qualified_class_name {
                Some(class) => match probe.method_name {
                    None => r == Err::<ProbePlan, ResolveError>(ResolveError::MethodNameMissing),
                    Some(method) => if task.uid < 0 {
                        r == Err::<ProbePlan, ResolveError>(ResolveError::NegativeUid(task.uid))
                    } else {
                        r matches Ok(plan) && plan.bpf_program_path@ == bpf_path(name@)
                            && (plan.source matches OffsetSource::Query(q) && q.uid == task.uid as u32
                            && q.pid == task.pid && q.process_name == task.process_name
                            && q.class_name == class && q.method_name == method && q.parameters@
                            == probe.fully_qualified_parameters@)
                    },
                },
                None => match probe.method_signature {
                    None => r == Err::<ProbePlan, ResolveError>(
                        ResolveError::MethodSignatureMissing,
                    ),
                    Some(sig) => r matches Ok(plan) && plan.bpf_program_path@ == bpf_path(name@)
                        && (plan.source matches OffsetSource::Oatdump(search) && search.wf()
                        && search.method_signature() == sig && search.file_paths()@ == probe.file_paths@
                        && search.outcomes() == Seq::<i32>::empty()),
                },
            }
        },
    }
}

/// Decides how one probe of a task is resolved.
///
/// The probe must name an enabled BPF program. When it names a class, it must name a
/// method too and the task's uid must not be negative: the offsets are then queried from
/// the platform. Otherwise it must give a method signature, which is searched for in its
/// code files.
pub fn plan_probe(probe: &ProbeConfig, task: &ResolvedTask, flags: &FeatureFlags) -> (r: Result<
    ProbePlan,
    ResolveError,
>)
    ensures
        plan_matches(r, *probe, *task, *flags),
{
    let bpf_name = match &probe.bpf_name {
        None => return Err(ResolveError::BpfNameMissing),
        Some(n) => n,
    };
    if !is_bpf_file_enabled(bpf_name.as_str(), flags) {
        return Err(ResolveError::BpfFileDisabled(bpf_name.clone()));
    }
    let bpf_program_path = prefix_bpf(bpf_name.as_str());
    match &probe.fully_qualified_class_name {
        Some(class_name) => {
            let method_name = match &probe.method_name {
                None => return Err(ResolveError::MethodNameMissing),
                Some(m) => m,
            };
            if task.uid < 0 {
                return Err(ResolveError::NegativeUid(task.uid));
            }
            let query = MethodQuery {
                uid: task.uid as u32,
                pid: task.pid,
                process_name: task.process_name.clone(),
                class_name: class_name.clone(),
                method_name: method_name.clone(),
                parameters: clone_strings(&probe.fully_qualified_parameters),
            };
            Ok(ProbePlan { bpf_program_path, source: OffsetSource::Query(query) })
        },
        None => {
            let sig = match &probe.method_signature {
                None => return Err(ResolveError::MethodSignatureMissing),
                Some(s) => s,
            };
            let search = OatdumpSearch::new(sig.clone(), clone_strings(&probe.file_paths));
            Ok(ProbePlan { bpf_program_path, source: OffsetSource::Oatdump(search) })
        },
    }
}

/// Resolves a probe whose offsets were queried from the platform: the platform must know
/// the method, and its offset must fit in an `i32`.
pub fn probe_from_offsets(
    probe: ProbeConfig,
    bpf_program_path: String,
    class_name: &String,
    offsets: Option<MethodFileOffsets>,
) -> (r: Result<ResolvedProbe, ResolveError>)
    ensures
        match offsets {
            None => r == Err::<ResolvedProbe, ResolveError>(
                ResolveError::OffsetsNotFound(*class_name),
            ),
            Some(o) => if o.method_offset > i32::MAX {
                r == Err::<ResolvedProbe, ResolveError>(
                    ResolveError::MethodOffsetOutOfRange(o.method_offset),
                )
            } else {
                r matches Ok(p) && p.probe == probe && p.filename == o.container_path
                    && p.offset == o.method_offset && p.bpf_program_path == bpf_program_path
            },
        },
{
    let offsets = match offsets {
        None => return Err(ResolveError::OffsetsNotFound(class_name.clone())),
        Some(o) => o,
    };
    if offsets.method_offset > 2147483647u64 {
        return Err(ResolveError::MethodOffsetOutOfRange(offsets.method_offset));
    }
    Ok(
        ResolvedProbe {
            probe,
            filename: offsets.container_path,
            offset: offsets.method_offset as i32,
            bpf_program_path,
        },
    )
}

/// Whether a resolved probe is the Binder transaction probe, whose filters must be
/// written to the Binder interface map.
pub fn needs_binder_filters(probe: &ResolvedProbe) -> (r: bool)
    ensures
        r == contains(probe.bpf_program_path@, BINDER_BPF_PROGRAM_NAME@),
{
    str_contains(probe.bpf_program_path.as_str(), BINDER_BPF_PROGRAM_NAME)
}

/// Checks that a Binder transaction probe has at least one filter.
pub fn check_binder_filters_present(probe: &ResolvedProbe) -> (r: Result<(), ResolveError>)
    ensures
        r is Ok <==> probe.probe.binder_transaction_filters@.len() > 0,
        r is Err ==> r == Err::<(), ResolveError>(ResolveError::BinderFiltersMissing),
{
    if probe.probe.binder_transaction_filters.len() == 0 {
        Err(ResolveError::BinderFiltersMissing)
    } else {
        Ok(())
    }
}

/// An entry to insert into the Binder interface map: an interface and the transaction
/// codes kept for it.
#[derive(Clone, Debug, PartialEq, Eq)]
pub struct BinderFilterEntry {
    /// The interface descriptor.
    pub interface_name: String,
    /// The transaction codes.
    pub codes: Vec<u64>,
}

/// A negative method id decides; the verdict is the id.
pub open spec fn negative_id() -> spec_fn(i32) -> Option<i32> {
    |id: i32|
        if id < 0 {
            Some(id)
        } else {
            None
        }
}

/// What `binder_filter_entry` owes for a filter: the interface name, then at least one
/// method id, then no negative id, checked in that order.
pub open spec fn filter_entry_matches(
    r: Result<BinderFilterEntry, ResolveError>,
    filter: BinderTransactionFilter,
) -> bool {
    match filter.interface_name {
        None => r == Err::<BinderFilterEntry, ResolveError>(ResolveError::BinderInterfaceNameMissing),
        Some(name) => if filter.method_ids@.len() == 0 {
            r == Err::<BinderFilterEntry, ResolveError>(ResolveError::BinderMethodIdsMissing)
        } else {
            match first_some(filter.method_ids@, negative_id()) {
                Some(id) => r == Err::<BinderFilterEntry, ResolveError>(
                    ResolveError::BinderMethodIdNegative(id),
                ),
                None => r matches Ok(e) && e.interface_name == name && e.codes@
                    == filter.method_ids@.map_values(|id: i32| id as u64),
            }
        },
    }
}

/// The map entry for one Binder transaction filter: it must name an interface and at
/// least one method id, and every id must be a valid (non-negative) transaction code.
pub fn binder_filter_entry(filter: &BinderTransactionFilter) -> (r: Result<
    BinderFilterEntry,
    ResolveError,
>)
    ensures
        filter_entry_matches(r, *filter),
{
    let name = match &filter.interface_name {
        None => return Err(ResolveError::BinderInterfaceNameMissing),
        Some(n) => n,
    };
    if filter.method_ids.len() == 0 {
        return Err(ResolveError::BinderMethodIdsMissing);
    }
    let ghost f = negative_id();
    let ids = &filter.method_ids;
    let mut codes: Vec<u64> = Vec::new();
    let mut i: usize = 0;
    while i < ids.len()
        invariant
            i <= ids@.len(),
            ids@ == filter.method_ids@,
            ids@.len() > 0,
            filter.interface_name == Some(*name),
            f == negative_id(),
            first_some(ids@.take(i as int), f) is None,
            codes@ == ids@.take(i as int).map_values(|id: i32| id as u64),
        decreases ids@.len() - i,
    {
        proof {
            lemma_first_some_step(ids@, f, i as int);
        }
        let id = ids[i];
        if id < 0 {
            proof {
                lemma_first_some_prefix(ids@, f, i + 1);
            }
            return Err(ResolveError::BinderMethodIdNegative(id));
        }
        codes.push(id as u64);
        assert(codes@ =~= ids@.take(i + 1int).map_values(|id: i32| id as u64));
        i += 1;
    }
    proof {
        lemma_first_some_all(ids@, f);
        assert(ids@.take(ids@.len() as int) =~= ids@);
    }
    Ok(BinderFilterEntry { interface_name: name.clone(), codes })
}

/// A search for a method's offset through a probe's code files, one `oatdump` run per
/// file, in order, until one gives a positive offset.
#[derive(Debug)]
pub struct OatdumpSearch {
    method_signature: String,
    file_paths: Vec<String>,
    outcomes: Vec<i32>,
    found: Option<usize>,
}

/// A file whose run gave a positive offset decides; the verdict is its position.
pub open spec fn positive_at(outcomes: Seq<i32>) -> spec_fn(int) -> Option<int> {
    |i: int|
        if outcomes[i] > 0 {
            Some(i)
        } else {
            None
        }
}

/// The positions `0..n`.
pub open spec fn positions(n: nat) -> Seq<int> {
    Seq::new(n, |i: int| i)
}

/// The position of the first positive outcome, if there is one.
pub open spec fn first_positive(outcomes: Seq<i32>) -> Option<int> {
    first_some(positions(outcomes.len()), positive_at(outcomes))
}

/// A search with these outcomes over this many files has ended.
pub open spec fn search_done(outcomes: Seq<i32>, file_count: nat) -> bool {
    first_positive(outcomes) is Some || outcomes.len() == file_count
}

impl OatdumpSearch {
    /// The method signature searched for.
    pub closed spec fn method_signature(&self) -> String {
        self.method_signature
    }

    /// The code files searched, in order.
    pub closed spec fn file_paths(&self) -> Vec<String> {
        self.file_paths
    }

    /// The offsets found so far, one per file searched, 0 where none was found.
    pub closed spec fn outcomes(&self) -> Seq<i32> {
        self.outcomes@
    }

    /// The position of the first file that gave a positive offset, if one did.
    pub open spec fn first_found(&self) -> Option<int> {
        first_positive(self.outcomes())
    }

    /// The search has ended: a file gave a positive offset, or every file was searched.
    pub open spec fn is_done(&self) -> bool {
        search_done(self.outcomes(), self.file_paths()@.len())
    }

    /// The search's state is consistent: no more outcomes than files, and none after the
    /// first positive one.
    pub closed spec fn wf(&self) -> bool {
        &&& self.outcomes@.len() <= self.file_paths@.len()
        &&& self.found == (match self.first_found() {
            Some(i) => Some(i as usize),
            None => None::<usize>,
        })
        &&& (self.found matches Some(i) ==> i == self.outcomes@.len() - 1)
    }

    /// A search that has not run yet.
    pub fn new(method_signature: String, file_paths: Vec<String>) -> (r: Self)
        ensures
            r.wf(),
            r.method_signature() == method_signature,
            r.file_paths() == file_paths,
            r.outcomes() == Seq::<i32>::empty(),
    {
        let r = OatdumpSearch { method_signature, file_paths, outcomes: Vec::new(), found: None };
        proof {
            assert(positions(0) =~= Seq::<int>::empty());
        }
        r
    }

    /// The method signature searched for.
    pub fn signature(&self) -> (r: &String)
        ensures
            *r == self.method_signature(),
    {
        &self.method_signature
    }

    /// The next file to run `oatdump` on, or `None` when the search has ended.
    pub fn next_file(&self) -> (r: Option<&String>)
        requires
            self.wf(),
        ensures
            r is None <==> self.is_done(),
            r matches Some(f) ==> *f == self.file_paths()@[self.outcomes().len() as int],
    {
        if self.found.is_some() || self.outcomes.len() == self.file_paths.len() {
            None
        } else {
            Some(&self.file_paths[self.outcomes.len()])
        }
    }

    /// Records what `oatdump` gave for the next file: an offset, or nothing (which counts
    /// as 0) when it failed or did not list the method.
    pub fn record(&mut self, found_offset: Option<i32>)
        requires
            old(self).wf(),
            !old(self).is_done(),
        ensures
            final(self).wf(),
            final(self).method_signature() == old(self).method_signature(),
            final(self).file_paths() == old(self).file_paths(),
            final(self).outcomes() == old(self).outcomes().push(
                match found_offset {
                    Some(o) => o,
                    None => 0,
                },
            ),
            final(self).outcomes().len() <= final(self).file_paths()@.len(),
            final(self).first_found() matches Some(i) ==> i == final(self).outcomes().len() - 1,
    {
        let v = match found_offset {
            Some(o) => o,
            None => 0,
        };
        let n = self.outcomes.len();
        let ghost old_outcomes = self.outcomes@;
        self.outcomes.push(v);
        proof {
            let ps = positions((n + 1) as nat);
            assert(ps.take(n as int) =~= positions(n as nat));
            assert(ps.take(n + 1) =~= ps);
            lemma_first_some_step(ps, positive_at(self.outcomes@), n as int);
            assert forall|k: int| 0 <= k < n implies positive_at(self.outcomes@)(
                positions(n as nat)[k],
            ) == positive_at(old_outcomes)(positions(n as nat)[k]) by {}
            lemma_first_some_same(positions(n as nat), positive_at(self.outcomes@), positive_at(old_outcomes));
        }
        if v > 0 {
            self.found = Some(n);
        }
    }

    /// The resolved probe, once the search has ended: the first file that gave a
    /// positive offset, with that offset; an error when none did.
    pub fn finish(self, probe: ProbeConfig, bpf_program_path: String) -> (r: Result<
        ResolvedProbe,
        ResolveError,
    >)
        requires
            self.wf(),
            self.is_done(),
        ensures
            match self.first_found() {
                Some(i) => r matches Ok(p) && p.probe == probe && p.filename
                    == self.file_paths()@[i] && p.offset == self.outcomes()[i] && p.offset > 0
                    && p.bpf_program_path == bpf_program_path,
                None => r == Err::<ResolvedProbe, ResolveError>(
                    ResolveError::OffsetNotFound(self.method_signature()),
                ),
            },
    {
        match self.found {
            Some(i) => {
                proof {
                    crate::seqs::lemma_first_some_from_item(
                        positions(self.outcomes@.len()),
                        positive_at(self.outcomes@),
                    );
                }
                let offset = self.outcomes[i];
                Ok(
                    ResolvedProbe {
                        probe,
                        filename: self.file_paths[i].clone(),
                        offset,
                        bpf_program_path,
                    },
                )
            },
            None => Err(ResolveError::OffsetNotFound(self.method_signature)),
        }
    }
}

/// Two checks that agree on every item agree on the sequence.
pub proof fn lemma_first_some_same<A, R>(s: Seq<A>, f: spec_fn(A) -> Option<R>, g: spec_fn(A) -> Option<R>)
    requires
        forall|k: int| 0 <= k < s.len() ==> f(s[k]) == g(s[k]),
    ensures
        first_some(s, f) == first_some(s, g),
    decreases s.len(),
{
    if s.len() > 0 {
        lemma_first_some_same(s.drop_last(), f, g);
        assert(s.last() == s[s.len() - 1]);
    }
}


/// The Binder exception code of a service-specific error.
pub const EX_SERVICE_SPECIFIC: i32 = -8;

/// The Binder exception code of an illegal state, which the offsets service reports, as
/// its service-specific error, while the process is not ready yet.
pub const EX_ILLEGAL_STATE: i32 = -5;

/// How many times a failed offsets query is retried.
pub const MAX_RETRIES: u32 = 5;

/// The wait before the first retry, in milliseconds; each later wait doubles.
pub const INITIAL_BACKOFF_MS: u64 = 10;

/// `2` to the power `n`.
pub open spec fn pow2(n: nat) -> nat
    decreases n,
{
    if n == 0 {
        1
    } else {
        2 * pow2((n - 1) as nat)
    }
}

/// What the retry policy decides for a failed query, with `retries` retries granted so
/// far: with retrying off, the failure ends the query; after `MAX_RETRIES` retries, it
/// ends it too; only a service-specific illegal-state error is retried, after waiting
/// `INITIAL_BACKOFF_MS * 2^retries` milliseconds; any other error ends the query.
pub open spec fn retry_decision(enabled: bool, retries: nat, status: ServiceStatus) -> Result<
    u64,
    ResolveError,
> {
    if !enabled {
        Err(ResolveError::OffsetsQueryFailed(status))
    } else if retries >= MAX_RETRIES {
        Err(ResolveError::RetriesExhausted(status))
    } else if status.exception_code != EX_SERVICE_SPECIFIC {
        Err(ResolveError::UnexpectedStatus(status))
    } else if status.service_specific_error != EX_ILLEGAL_STATE {
        Err(ResolveError::UnexpectedServiceSpecificError(status))
    } else {
        Ok((INITIAL_BACKOFF_MS * pow2(retries)) as u64)
    }
}

/// The retry policy of the platform's offsets query: when process observation is on,
/// a query failing because the process is not ready yet is retried after a wait that
/// doubles each time, at most `MAX_RETRIES` times; other failures end the query.
#[derive(Clone, Copy, Debug, PartialEq, Eq)]
pub struct OffsetsRetry {
    retry_enabled: bool,
    retries: u32,
    backoff_ms: u64,
}

impl OffsetsRetry {
    /// Whether failures may be retried at all.
    pub closed spec fn retry_enabled(&self) -> bool {
        self.retry_enabled
    }

    /// How many retries were granted so far.
    pub closed spec fn retries(&self) -> nat {
        self.retries as nat
    }

    /// The wait before the next retry, in milliseconds.
    pub closed spec fn backoff_ms(&self) -> nat {
        self.backoff_ms as nat
    }

    /// The waits follow the schedule and no more retries than allowed were granted.
    pub open spec fn wf(&self) -> bool {
        &&& self.retries() <= MAX_RETRIES
        &&& self.backoff_ms() == INITIAL_BACKOFF_MS * pow2(self.retries())
    }

    /// The policy before the first query.
    pub fn new(flags: &FeatureFlags) -> (r: Self)
        ensures
            r.wf(),
            r.retry_enabled() == flags.use_process_observer_api,
            r.retries() == 0,
    {
        OffsetsRetry {
            retry_enabled: flags.use_process_observer_api,
            retries: 0,
            backoff_ms: INITIAL_BACKOFF_MS,
        }
    }

    /// Decides what follows a failed query: the wait before retrying, in milliseconds, or
    /// the error that ends the query.
    pub fn on_failure(&mut self, status: ServiceStatus) -> (r: Result<u64, ResolveError>)
        requires
            old(self).wf(),
        ensures
            final(self).wf(),
            final(self).retry_enabled() == old(self).retry_enabled(),
            r == retry_decision(old(self).retry_enabled(), old(self).retries(), status),
            final(self).retries() == old(self).retries() + if r is Ok { 1nat } else { 0nat },
            !old(self).retry_enabled() ==> r == Err::<u64, ResolveError>(
                ResolveError::OffsetsQueryFailed(status),
            ) && *final(self) == *old(self),
            old(self).retry_enabled() && old(self).retries() >= MAX_RETRIES ==> r == Err::<
                u64,
                ResolveError,
            >(ResolveError::RetriesExhausted(status)) && *final(self) == *old(self),
            old(self).retry_enabled() && old(self).retries() < MAX_RETRIES
                && status.exception_code != EX_SERVICE_SPECIFIC ==> r == Err::<u64, ResolveError>(
                ResolveError::UnexpectedStatus(status),
            ) && *final(self) == *old(self),
            old(self).retry_enabled() && old(self).retries() < MAX_RETRIES
                && status.exception_code == EX_SERVICE_SPECIFIC && status.service_specific_error
                != EX_ILLEGAL_STATE ==> r == Err::<u64, ResolveError>(
                ResolveError::UnexpectedServiceSpecificError(status),
            ) && *final(self) == *old(self),
            old(self).retry_enabled() && old(self).retries() < MAX_RETRIES
                && status.exception_code == EX_SERVICE_SPECIFIC && status.service_specific_error
                == EX_ILLEGAL_STATE ==> r == Ok::<u64, ResolveError>(old(self).backoff_ms() as u64)
                && final(self).retries() == old(self).retries() + 1,
    {
        if !self.retry_enabled {
            return Err(ResolveError::OffsetsQueryFailed(status));
        }
        if self.retries >= MAX_RETRIES {
            return Err(ResolveError::RetriesExhausted(status));
        }
        if status.exception_code != EX_SERVICE_SPECIFIC {
            return Err(ResolveError::UnexpectedStatus(status));
        }
        if status.service_specific_error != EX_ILLEGAL_STATE {
            return Err(ResolveError::UnexpectedServiceSpecificError(status));
        }
        let wait = self.backoff_ms;
        proof {
            assert(pow2(self.retries as nat + 1) == 2 * pow2(self.retries as nat));
            assert(pow2(0) == 1);
            assert(pow2(1) == 2);
            assert(pow2(2) == 4);
            assert(pow2(3) == 8);
            assert(pow2(4) == 16);
            assert(pow2(5) == 32);
        }
        self.retries = self.retries + 1;
        self.backoff_ms = self.backoff_ms * 2;
        Ok(wait)
    }
}

/// A whole run of a query: `failures` are the statuses of its failed calls, in order,
/// each one but the last answered by a retry (the policy starts with no retry granted,
/// and each retry granted counts one). Then the run has at most `1 + MAX_RETRIES` failed
/// calls, so at most that many calls; with retrying off it has one; every failure but
/// the last is a service-specific illegal-state error; and the `i`-th wait is
/// `10 * 2^i` milliseconds, 310 milliseconds in all at most.
pub proof fn lemma_retry_run(enabled: bool, failures: Seq<ServiceStatus>)
    requires
        forall|i: int| 0 <= i < failures.len() - 1 ==> #[trigger] retry_decision(enabled, i as nat, failures[i]) is Ok,
    ensures
        failures.len() <= MAX_RETRIES + 1,
        !enabled ==> failures.len() <= 1,
        forall|i: int|
            0 <= i < failures.len() - 1 ==> (#[trigger] failures[i]).exception_code
                == EX_SERVICE_SPECIFIC && failures[i].service_specific_error == EX_ILLEGAL_STATE
                && retry_decision(enabled, i as nat, failures[i]) == Ok::<u64, ResolveError>(
                (INITIAL_BACKOFF_MS * pow2(i as nat)) as u64,
            ) && INITIAL_BACKOFF_MS * pow2(i as nat) <= 160,
{
    reveal_with_fuel(pow2, 5);
    if failures.len() > MAX_RETRIES + 1 {
        let i: int = MAX_RETRIES as int;
        assert(retry_decision(enabled, i as nat, failures[i]) is Ok);
    }
    if !enabled && failures.len() > 1 {
        let i: int = 0;
        assert(retry_decision(enabled, i as nat, failures[i]) is Ok);
    }
    assert forall|i: int| 0 <= i < failures.len() - 1 implies (#[trigger] failures[i]).exception_code
        == EX_SERVICE_SPECIFIC && failures[i].service_specific_error == EX_ILLEGAL_STATE
        && retry_decision(enabled, i as nat, failures[i]) == Ok::<u64, ResolveError>(
        (INITIAL_BACKOFF_MS * pow2(i as nat)) as u64,
    ) && INITIAL_BACKOFF_MS * pow2(i as nat) <= 160 by {
        assert(retry_decision(enabled, i as nat, failures[i]) is Ok);
        assert(i < 5);
        if i == 0 {} else if i == 1 {} else if i == 2 {} else if i == 3 {} else {}
    }
}

/// The waits between retries are 10, 20, 40, 80 and 160 milliseconds: the `k`-th retry
/// waits `10 * 2^k` milliseconds, and all waits together come to 310 milliseconds.
pub proof fn lemma_retry_schedule()
    ensures
        INITIAL_BACKOFF_MS * pow2(0) == 10,
        INITIAL_BACKOFF_MS * pow2(1) == 20,
        INITIAL_BACKOFF_MS * pow2(2) == 40,
        INITIAL_BACKOFF_MS * pow2(3) == 80,
        INITIAL_BACKOFF_MS * pow2(4) == 160,
        INITIAL_BACKOFF_MS * (pow2(0) + pow2(1) + pow2(2) + pow2(3) + pow2(4)) == 310,
{
    reveal_with_fuel(pow2, 5);
}

} // verus!
