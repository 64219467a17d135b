//! Finding the process that a task probes: by name among running processes, or by
//! waiting for an app process to start.
use crate::config::TargetProcessSelection;
use crate::config_resolver::MethodQuery;
use crate::seqs::{first_some, lemma_first_some_all, lemma_first_some_prefix, lemma_first_some_step};
use crate::bpf_map::{bytes_as_str, c_str_text, CStrError};
use crate::text::{starts_with, str_eq, str_starts_with};
use vstd::prelude::*;

verus! {

/// A process found for a task.
#[derive(Clone, Debug, PartialEq, Eq)]
pub struct ResolvedProcess {
    /// Its pid.
    pub pid: i32,
    /// Its uid (0 when the process was found by name).
    pub uid: i32,
    /// Its name.
    pub name: String,
}

/// How the process of a task is to be found.
#[derive(Clone, Debug, PartialEq, Eq)]
pub enum ProcessLookup {
    /// Wait, for at most the given time, for an app process to start: the one with the
    /// given name, or any when no name is given.
    AppStart {
        /// The name to wait for.
        process_name: Option<String>,
        /// How long to wait, in seconds.
        duration_seconds: u64,
        /// Whether starts are observed through the activity manager's process observer
        /// (else through a probe on the system server).
        via_observer: bool,
    },
    /// Find the running process with the given name.
    ByName {
        /// The name.
        process_name: String,
    },
}

/// Why no process can be found for a task.
#[derive(Clone, Copy, Debug, PartialEq, Eq)]
pub enum ProcessError {
    /// The selection needs a process name and the task gives none.
    ProcessNameRequired(TargetProcessSelection),
    /// No matching process started in time.
    Timeout,
}

/// How a task's process is found, from its optional name, its selection, and its duration.
pub open spec fn lookup_for(
    process_name: Option<String>,
    selection: TargetProcessSelection,
    duration_seconds: u64,
    via_observer: bool,
) -> Result<ProcessLookup, ProcessError> {
    match selection {
        TargetProcessSelection::SpecificAppProcessOnStart => Ok(
            ProcessLookup::AppStart { process_name, duration_seconds, via_observer },
        ),
        TargetProcessSelection::AnyAppProcessOnStart => Ok(
            ProcessLookup::AppStart { process_name: None, duration_seconds, via_observer },
        ),
        _ => match process_name {
            None => Err(ProcessError::ProcessNameRequired(selection)),
            Some(name) => Ok(ProcessLookup::ByName { process_name: name }),
        },
    }
}

/// Decides how a task's process is found: app-start selections wait for a start (of the
/// named process, or of any app process); the others look the named process up, and
/// need a name.
pub fn process_lookup(
    process_name: &Option<String>,
    selection: TargetProcessSelection,
    duration_seconds: u64,
    via_observer: bool,
) -> (r: Result<ProcessLookup, ProcessError>)
    ensures
        r == lookup_for(*process_name, selection, duration_seconds, via_observer),
{
    match selection {
        TargetProcessSelection::SpecificAppProcessOnStart => Ok(
            ProcessLookup::AppStart {
                process_name: process_name.clone(),
                duration_seconds,
                via_observer,
            },
        ),
        TargetProcessSelection::AnyAppProcessOnStart => Ok(
            ProcessLookup::AppStart { process_name: None, duration_seconds, via_observer },
        ),
        _ => match process_name {
            None => Err(ProcessError::ProcessNameRequired(selection)),
            Some(name) => Ok(ProcessLookup::ByName { process_name: name.clone() }),
        },
    }
}

/// A process start reported by the activity manager's process observer.
#[derive(Clone, Debug, PartialEq, Eq)]
pub struct ProcessStarted {
    /// The new process's pid.
    pub pid: i32,
    /// The new process's uid.
    pub process_uid: u32,
    /// The uid of its package.
    pub package_uid: u32,
    /// The name of its package.
    pub package_name: String,
    /// The name of the process.
    pub process_name: String,
}

/// The process that a start gives, when it is the awaited one: any start when no name is
/// awaited, else a start of the process with that name.
pub open spec fn start_match(target: Option<Seq<char>>) -> spec_fn(ProcessStarted) -> Option<
    (i32, i32, Seq<char>),
> {
    |e: ProcessStarted|
        if target is None || target == Some(e.process_name@) {
            Some((e.pid, e.process_uid as i32, e.process_name@))
        } else {
            None
        }
}

/// The view of a resolved process.
pub open spec fn process_view(p: ResolvedProcess) -> (i32, i32, Seq<char>) {
    (p.pid, p.uid, p.name@)
}

/// The process a single start gives, when it is the awaited one.
pub fn app_start_match(target: Option<&str>, started: &ProcessStarted) -> (r: Option<
    ResolvedProcess,
>)
    ensures
        r matches Some(p) ==> start_match(opt_str_view(target))(*started) == Some(
            process_view(p),
        ),
        r is None ==> start_match(opt_str_view(target))(*started) is None,
{
    let wanted = match target {
        None => true,
        Some(t) => {
            let a = crate::text::chars_of(t);
            let b = crate::text::chars_of(started.process_name.as_str());
            a.len() == b.len() && crate::text::seq_starts_with(&b, &a) && {
                assert(b@.take(a@.len() as int) =~= b@);
                true
            }
        },
    };
    if wanted {
        Some(
            ResolvedProcess {
                pid: started.pid,
                uid: started.process_uid as i32,
                name: started.process_name.clone(),
            },
        )
    } else {
        proof {
            if let Some(t) = target {
                if t@ == started.process_name@ {
                    assert(t@.len() == started.process_name@.len());
                    assert(started.process_name@.take(t@.len() as int) =~= t@);
                }
            }
        }
        None
    }
}

/// The text of an optional string slice.
pub open spec fn opt_str_view(s: Option<&str>) -> Option<Seq<char>> {
    match s {
        Some(v) => Some(v@),
        None => None,
    }
}

/// The process found by waiting on the process observer, given the starts that it
/// reported, in order, before the wait ran out: the first start of the awaited process
/// (of any app process when no name is given), or a timeout when none of them is one.
pub fn wait_for_app_start_observer(process_name: Option<&str>, started: &Vec<ProcessStarted>) -> (r:
    Result<ResolvedProcess, ProcessError>)
    ensures
        match first_some(started@, start_match(opt_str_view(process_name))) {
            Some(v) => r matches Ok(p) && process_view(p) == v,
            None => r == Err::<ResolvedProcess, ProcessError>(ProcessError::Timeout),
        },
{
    let ghost f = start_match(opt_str_view(process_name));
    let mut i: usize = 0;
    while i < started.len()
        invariant
            i <= started@.len(),
            f == start_match(opt_str_view(process_name)),
            first_some(started@.take(i as int), f) is None,
        decreases started@.len() - i,
    {
        proof {
            lemma_first_some_step(started@, f, i as int);
        }
        if let Some(p) = app_start_match(process_name, &started[i]) {
            proof {
                lemma_first_some_prefix(started@, f, i + 1);
            }
            return Ok(p);
        }
        i += 1;
    }
    proof {
        lemma_first_some_all(started@, f);
    }
    Err(ProcessError::Timeout)
}

/// What a start gives does not depend on its package: two starts with the same pid,
/// process uid and process name give the same answer, whatever their package uids and
/// names.
pub proof fn lemma_start_ignores_package(
    target: Option<Seq<char>>,
    a: ProcessStarted,
    b: ProcessStarted,
)
    requires
        a.pid == b.pid,
        a.process_uid == b.process_uid,
        a.process_name == b.process_name,
    ensures
        start_match(target)(a) == start_match(target)(b),
{
}

/// The process found by waiting for an app start is one of the reported starts that is
/// awaited (any start when no name is given, else one with that process name): its pid,
/// its process uid reinterpreted as an `i32` (not its package's uid), and its process
/// name.
pub proof fn lemma_wait_gives_awaited_start(
    target: Option<Seq<char>>,
    started: Seq<ProcessStarted>,
)
    ensures
        first_some(started, start_match(target)) matches Some(v) ==> exists|k: int|
            0 <= k < started.len() && (target is None || target == Some(
                (#[trigger] started[k]).process_name@,
            )) && v == (started[k].pid, started[k].process_uid as i32, started[k].process_name@),
{
    let f = start_match(target);
    crate::seqs::lemma_first_some_from_item(started, f);
    if let Some(v) = first_some(started, f) {
        let k = choose|k: int| 0 <= k < started.len() && #[trigger] f(started[k]) == Some(v);
        assert(0 <= k < started.len() && (target is None || target == Some(started[k].process_name@)));
    }
}

/// Starts reported after the awaited one do not change what waiting finds.
pub proof fn lemma_later_starts_ignored(
    process_name: Option<Seq<char>>,
    before: Seq<ProcessStarted>,
    after: Seq<ProcessStarted>,
)
    requires
        first_some(before, start_match(process_name)) is Some,
    ensures
        first_some(before + after, start_match(process_name)) == first_some(
            before,
            start_match(process_name),
        ),
{
    crate::seqs::lemma_first_some_append(before, after, start_match(process_name));
}

/// A running process's command line names the process sought: it is the name, or
/// begins with it.
pub open spec fn cmdline_names(cmdline: Seq<char>, process_name: Seq<char>) -> bool {
    cmdline == process_name || starts_with(cmdline, process_name)
}

/// Whether a running process's command line names the process sought.
pub fn cmdline_matches(cmdline: &str, process_name: &str) -> (r: bool)
    ensures
        r == cmdline_names(cmdline@, process_name@),
{
    let r = str_starts_with(cmdline, process_name);
    proof {
        if cmdline@ == process_name@ {
            assert(cmdline@.take(process_name@.len() as int) =~= cmdline@);
        }
    }
    r
}

/// The pid that a `/proc` entry's name writes, when it writes one in decimal.
pub fn parse_pid(entry_name: &str) -> (r: Option<i32>)
    ensures
        r == crate::numbers::parse_i32_in_radix(entry_name@, 10),
{
    crate::numbers::parse_i32_radix(entry_name, 10)
}


/// A directory under `/proc` whose command line could be read.
#[derive(Clone, Debug, PartialEq, Eq)]
pub struct ProcEntry {
    /// The directory's name.
    pub name: String,
    /// Its command line, decoded as UTF-8 with invalid bytes replaced.
    pub cmdline: String,
}

/// What one `/proc` entry decides when looking a process up by name: its pid, when its
/// command line names the process and its name writes a pid.
pub open spec fn entry_pid(process_name: Seq<char>) -> spec_fn(ProcEntry) -> Option<i32> {
    |e: ProcEntry|
        if cmdline_names(e.cmdline@, process_name) {
            crate::numbers::parse_i32_in_radix(e.name@, 10)
        } else {
            None
        }
}

/// The pid of the process named `process_name` among `/proc` entries listed in order:
/// that of the first entry whose command line names it and whose name writes a pid.
pub fn pid_from_entries(entries: &Vec<ProcEntry>, process_name: &str) -> (r: Option<i32>)
    ensures
        r == first_some(entries@, entry_pid(process_name@)),
{
    let ghost f = entry_pid(process_name@);
    let mut i: usize = 0;
    while i < entries.len()
        invariant
            i <= entries@.len(),
            f == entry_pid(process_name@),
            first_some(entries@.take(i as int), f) is None,
        decreases entries@.len() - i,
    {
        proof {
            lemma_first_some_step(entries@, f, i as int);
        }
        let e = &entries[i];
        if cmdline_matches(e.cmdline.as_str(), process_name) {
            if let Some(pid) = parse_pid(e.name.as_str()) {
                proof {
                    lemma_first_some_prefix(entries@, f, i + 1);
                }
                return Some(pid);
            }
        }
        i += 1;
    }
    proof {
        lemma_first_some_all(entries@, f);
    }
    None
}

/// The class whose method marks an app process active.
pub const CLASS_PROCESS_RECORD: &'static str = "com.android.server.am.ProcessRecord";

/// The method that marks an app process active.
pub const METHOD_MAKE_ACTIVE: &'static str = "makeActive";

/// The parameter types of `ProcessRecord#makeActive`.
pub const METHOD_MAKE_ACTIVE_PARAMS: [&'static str; 2] = [
    "com.android.server.am.ApplicationThreadDeferred",
    "com.android.server.am.ProcessStatsService",
];

/// The class whose method is probed when `ProcessRecord#makeActive` cannot be found.
pub const CLASS_PROCESS_PROFILE_RECORD: &'static str = "com.android.server.am.ProcessProfileRecord";

/// The method probed when `ProcessRecord#makeActive` cannot be found.
pub const METHOD_ON_PROCESS_ACTIVE: &'static str = "onProcessActive";

/// The parameter types of `ProcessProfileRecord#onProcessActive`.
pub const METHOD_ON_PROCESS_ACTIVE_PARAMS: [&'static str; 2] = [
    "android.app.IApplicationThread",
    "com.android.server.am.ProcessStatsService",
];

/// The BPF program that probes `ProcessRecord#makeActive`.
pub const BPF_PROG_PROCESS_MANAGEMENT_MAKE_ACTIVE: &'static str =
    "prog_ProcessManagement_uprobe_make_active";

/// The BPF program that probes `ProcessProfileRecord#onProcessActive`.
pub const BPF_PROG_PROCESS_MANAGEMENT_ON_PROCESS_ACTIVE: &'static str =
    "prog_ProcessManagement_uprobe_on_process_active";

/// The ring buffer into which those programs write process changes.
pub const BPF_MAP_PROCESS_MANAGEMENT: &'static str = "map_ProcessManagement_process_change_output_buf";

/// The probe that watches app starts in the system server: the method whose offsets are
/// queried, and the BPF program attached to it.
#[derive(Clone, Debug, PartialEq, Eq)]
pub struct AppStartProbe {
    /// The query for the method's offsets in the system server.
    pub query: MethodQuery,
    /// The name of the BPF program attached to the method.
    pub bpf_program_name: &'static str,
}

/// The texts of strings.
pub open spec fn texts(v: Seq<String>) -> Seq<Seq<char>> {
    v.map_values(|s: String| s@)
}

/// The app-start probe: `ProcessRecord#makeActive` with its program first, and, as the
/// fallback when its offsets cannot be had, `ProcessProfileRecord#onProcessActive` with
/// its program; either is queried in the system server (uid 0, pid 0).
pub fn app_start_probe(fallback: bool) -> (r: AppStartProbe)
    ensures
        r.query.uid == 0,
        r.query.pid == 0,
        r.query.process_name@ == "system_server"@,
        !fallback ==> r.query.class_name@ == CLASS_PROCESS_RECORD@ && r.query.method_name@
            == METHOD_MAKE_ACTIVE@ && texts(r.query.parameters@) == seq![
            METHOD_MAKE_ACTIVE_PARAMS@[0]@,
            METHOD_MAKE_ACTIVE_PARAMS@[1]@,
        ] && r.bpf_program_name == BPF_PROG_PROCESS_MANAGEMENT_MAKE_ACTIVE,
        fallback ==> r.query.class_name@ == CLASS_PROCESS_PROFILE_RECORD@ && r.query.method_name@
            == METHOD_ON_PROCESS_ACTIVE@ && texts(r.query.parameters@) == seq![
            METHOD_ON_PROCESS_ACTIVE_PARAMS@[0]@,
            METHOD_ON_PROCESS_ACTIVE_PARAMS@[1]@,
        ] && r.bpf_program_name == BPF_PROG_PROCESS_MANAGEMENT_ON_PROCESS_ACTIVE,
{
    let (class_name, method_name, params, bpf_program_name) = if fallback {
        (
            CLASS_PROCESS_PROFILE_RECORD,
            METHOD_ON_PROCESS_ACTIVE,
            METHOD_ON_PROCESS_ACTIVE_PARAMS,
            BPF_PROG_PROCESS_MANAGEMENT_ON_PROCESS_ACTIVE,
        )
    } else {
        (
            CLASS_PROCESS_RECORD,
            METHOD_MAKE_ACTIVE,
            METHOD_MAKE_ACTIVE_PARAMS,
            BPF_PROG_PROCESS_MANAGEMENT_MAKE_ACTIVE,
        )
    };
    let mut parameters: Vec<String> = Vec::new();
    parameters.push(params[0].to_owned());
    parameters.push(params[1].to_owned());
    assert(texts(parameters@) =~= seq![params@[0]@, params@[1]@]);
    let query = MethodQuery {
        uid: 0,
        pid: 0,
        process_name: "system_server".to_owned(),
        class_name: class_name.to_owned(),
        method_name: method_name.to_owned(),
        parameters,
    };
    AppStartProbe { query, bpf_program_name }
}

/// A process change written by the process management probe.
#[derive(Clone, Debug, Default, PartialEq, Eq)]
pub struct ProcessChange {
    /// The pid.
    pub pid: i32,
    /// The uid.
    pub uid: i32,
    /// The process name, as a NUL-terminated C string.
    pub process_name: Vec<u8>,
}

/// What one process change decides when waiting for an app start: an error when its
/// name cannot be read; the process when it is the awaited one (any one when no name is
/// awaited) and has a positive pid; nothing otherwise.
pub open spec fn change_verdict(target: Option<Seq<char>>) -> spec_fn(ProcessChange) -> Option<
    Result<(i32, i32, Seq<char>), CStrError>,
> {
    |c: ProcessChange|
        match c_str_text(c.process_name@) {
            Err(e) => Some(Err(e)),
            Ok(name) => if (target is None || target == Some(name)) && c.pid > 0 {
                Some(Ok((c.pid, c.uid, name)))
            } else {
                None
            },
        }
}

/// Looks through a batch of process changes, in order, for the start of the awaited
/// process: the first change that names it with a positive pid gives it; a change whose
/// name cannot be read ends the wait with an error.
pub fn scan_process_changes(target: Option<&str>, changes: &Vec<ProcessChange>) -> (r: Result<
    Option<ResolvedProcess>,
    CStrError,
>)
    ensures
        match first_some(changes@, change_verdict(opt_str_view(target))) {
            None => r == Ok::<Option<ResolvedProcess>, CStrError>(None),
            Some(Err(e)) => r == Err::<Option<ResolvedProcess>, CStrError>(e),
            Some(Ok(v)) => r matches Ok(Some(p)) && process_view(p) == v,
        },
{
    let ghost f = change_verdict(opt_str_view(target));
    let mut i: usize = 0;
    while i < changes.len()
        invariant
            i <= changes@.len(),
            f == change_verdict(opt_str_view(target)),
            first_some(changes@.take(i as int), f) is None,
        decreases changes@.len() - i,
    {
        proof {
            lemma_first_some_step(changes@, f, i as int);
        }
        let change = &changes[i];
        let name = match bytes_as_str(change.process_name.as_slice()) {
            Err(e) => {
                proof {
                    lemma_first_some_prefix(changes@, f, i + 1);
                }
                return Err(e);
            },
            Ok(n) => n,
        };
        let wanted = match target {
            None => true,
            Some(t) => str_eq(t, name.as_str()),
        };
        if wanted && change.pid > 0 {
            proof {
                lemma_first_some_prefix(changes@, f, i + 1);
            }
            return Ok(Some(ResolvedProcess { pid: change.pid, uid: change.uid, name }));
        }
        i += 1;
    }
    proof {
        lemma_first_some_all(changes@, f);
    }
    Ok(None)
}

} // verus!
