//! Resolution of a task's probes, one after the other, as a state machine: it says what
//! outside work each step needs (an offsets query, an `oatdump` run, opening the Binder
//! interface map, writing a filter into it) and takes the outcome of that work.
use crate::config::ProbeConfig;
use crate::bpf::UpdateMapElemFlags;
use crate::config_resolver::{
    binder_filter_entry, bpf_file_enabled, bpf_path, filter_entry_matches, first_positive,
    needs_binder_filters, plan_matches, plan_probe, search_done, BinderFilterEntry, FeatureFlags,
    MethodFileOffsets, MethodQuery, OatdumpSearch, OffsetSource, ProbePlan, ResolveError,
    ResolvedProbe, ResolvedTask, BINDER_BPF_PROGRAM_NAME,
};
use crate::text::contains;
use vstd::prelude::*;

verus! {

/// The outside work a step of probe resolution needs, or how resolution ended.
#[derive(Clone, Debug, PartialEq, Eq)]
pub enum ProbeAction {
    /// Query the platform for the method's offsets; report them with `on_offsets`.
    QueryOffsets(MethodQuery),
    /// Run `oatdump` on a code file and look the method up; report with `on_oatdump`.
    RunOatdump {
        /// The code file.
        file_path: String,
        /// The method's signature.
        method_signature: String,
    },
    /// Open the Binder interface map; report with `on_binder_map_opened`.
    OpenBinderMap,
    /// Write an entry into the Binder interface map with the given mode; report with
    /// `on_filter_written`.
    WriteBinderFilter {
        /// The entry.
        entry: BinderFilterEntry,
        /// How the entry is written.
        flags: UpdateMapElemFlags,
    },
    /// The probe is resolved; continue with `next_action`.
    ProbeResolved,
    /// Every probe is resolved.
    Finished,
    /// Resolution failed.
    Failed(ResolveError),
}

/// Where probe resolution stands.
#[derive(Clone, Copy, Debug, PartialEq, Eq)]
pub enum ResolverPhase {
    /// Ready for the next probe.
    Next,
    /// Waiting for the offsets of the current probe's method.
    Querying,
    /// Searching the current probe's code files.
    Searching,
    /// Waiting for the Binder interface map to be opened.
    OpeningMap,
    /// Writing the current probe's Binder filters.
    Writing,
    /// Every probe is resolved.
    Finished,
    /// Resolution failed.
    Failed,
}

#[derive(Debug)]
enum Stage {
    Next,
    Querying { probe: ProbeConfig, bpf_program_path: String, class_name: String },
    Searching { probe: ProbeConfig, bpf_program_path: String, search: OatdumpSearch },
    OpeningMap { pending: ResolvedProbe },
    Writing { pending: ResolvedProbe, filter: usize },
    Finished,
    Failed,
}

/// The resolution of a task's probes.
pub struct ProbeResolver {
    task: ResolvedTask,
    orig: Ghost<ResolvedTask>,
    flags: FeatureFlags,
    remaining: Vec<ProbeConfig>,
    resolved: Vec<ResolvedProbe>,
    binder_map_open: bool,
    stage: Stage,
    all: Ghost<Seq<ProbeConfig>>,
}

/// What a plan calls for first, and the resolver it leaves.
pub open spec fn plan_outcome(
    plan: Result<ProbePlan, ResolveError>,
    r: ProbeAction,
    s: ProbeResolver,
) -> bool {
    match plan {
        Err(e) => r == ProbeAction::Failed(e) && s.phase() == ResolverPhase::Failed,
        Ok(p) => match p.source {
            OffsetSource::Query(q) => r == ProbeAction::QueryOffsets(q) && s.phase()
                == ResolverPhase::Querying && s.bpf_program_path() == p.bpf_program_path
                && s.class_name() == q.class_name,
            OffsetSource::Oatdump(search) => if search.is_done() {
                r == ProbeAction::Failed(ResolveError::OffsetNotFound(search.method_signature()))
                    && s.phase() == ResolverPhase::Failed
            } else {
                r == ProbeAction::RunOatdump {
                    file_path: search.file_paths()@[0],
                    method_signature: search.method_signature(),
                } && s.phase() == ResolverPhase::Searching && s.search() == search
                    && s.bpf_program_path() == p.bpf_program_path
            },
        },
    }
}

/// What follows once the Binder map is open, from the `k`-th filter of `pending` on:
/// at least one filter is needed; each filter's entry is written in turn; a filter
/// without a valid entry fails; after the last one the probe is resolved.
pub open spec fn filters_outcome(
    pending: ResolvedProbe,
    k: int,
    before: Seq<ResolvedProbe>,
    r: ProbeAction,
    s: ProbeResolver,
) -> bool {
    let filters = pending.probe.binder_transaction_filters@;
    if k == 0 && filters.len() == 0 {
        r == ProbeAction::Failed(ResolveError::BinderFiltersMissing) && s.phase()
            == ResolverPhase::Failed
    } else if k >= filters.len() {
        r == ProbeAction::ProbeResolved && s.phase() == ResolverPhase::Next && s.resolved()
            == before.push(pending)
    } else {
        exists|er: Result<BinderFilterEntry, ResolveError>|
            filter_entry_matches(er, filters[k]) && match er {
                Err(e) => r == ProbeAction::Failed(e) && s.phase() == ResolverPhase::Failed,
                Ok(entry) => r == ProbeAction::WriteBinderFilter {
                    entry,
                    flags: UpdateMapElemFlags::Insert,
                } && s.phase()
                    == ResolverPhase::Writing && s.pending() == pending && s.next_filter() == k
                    && s.resolved() == before,
            }
    }
}

/// What follows a probe resolved from the platform's offsets: nothing more unless it is
/// the Binder transaction probe; then the Binder map is opened if it is not yet, and the
/// probe's filters are written.
pub open spec fn resolved_probe_outcome(
    pending: ResolvedProbe,
    map_was_open: bool,
    before: Seq<ResolvedProbe>,
    r: ProbeAction,
    s: ProbeResolver,
) -> bool {
    if !contains(pending.bpf_program_path@, BINDER_BPF_PROGRAM_NAME@) {
        r == ProbeAction::ProbeResolved && s.phase() == ResolverPhase::Next && s.resolved()
            == before.push(pending)
    } else if !map_was_open {
        r == ProbeAction::OpenBinderMap && s.phase() == ResolverPhase::OpeningMap && s.pending()
            == pending && s.resolved() == before
    } else {
        filters_outcome(pending, 0, before, r, s)
    }
}

/// The platform reported offsets `o` for the method, and `rp` takes its code file and
/// method offset from them, the offset fitting in an `i32`.
pub open spec fn offsets_give(o: MethodFileOffsets, rp: ResolvedProbe) -> bool {
    &&& o.method_offset <= i32::MAX
    &&& rp.filename == o.container_path
    &&& rp.offset == o.method_offset as i32
}

/// `oatdump` was run on the first `outcomes.len()` of `files`, in order, with these
/// outcomes (0 where it found nothing), the last one was the first positive one, and
/// `rp` takes that file and offset.
pub open spec fn oatdump_gives(outcomes: Seq<i32>, files: Seq<String>, rp: ResolvedProbe) -> bool {
    &&& 0 < outcomes.len() <= files.len()
    &&& first_positive(outcomes) == Some(outcomes.len() - 1)
    &&& rp.filename == files[outcomes.len() - 1]
    &&& rp.offset == outcomes[outcomes.len() - 1]
}

/// `rp` is a resolution of `probe` for the task: the probe names an enabled BPF program
/// whose path `rp` carries; a probe that names a class also names a method, the task's
/// uid is not negative, and the code file and offset come from what the platform
/// reported; any other probe gives a method signature, and the code file and offset are
/// those of the first of its files where `oatdump` found a positive offset.
pub open spec fn resolves_to(
    probe: ProbeConfig,
    task: ResolvedTask,
    flags: FeatureFlags,
    rp: ResolvedProbe,
) -> bool {
    &&& rp.probe == probe
    &&& probe.bpf_name matches Some(name) && bpf_file_enabled(name@, flags)
        && rp.bpf_program_path@ == bpf_path(name@)
    &&& match probe.fully_qualified_class_name {
        Some(_) => probe.method_name is Some && task.uid >= 0 && exists|o: MethodFileOffsets|
            #[trigger] offsets_give(o, rp),
        None => probe.method_signature is Some && exists|outcomes: Seq<i32>|
            #[trigger] oatdump_gives(outcomes, probe.file_paths@, rp),
    }
}

/// A resolved probe whose filters go into the Binder interface map: it was resolved
/// from the platform's offsets and its program is the Binder transaction program.
pub open spec fn needs_binder_map(rp: ResolvedProbe) -> bool {
    rp.probe.fully_qualified_class_name is Some && contains(
        rp.bpf_program_path@,
        BINDER_BPF_PROGRAM_NAME@,
    )
}

/// The probe names an enabled BPF program, and `path` is that program's path.
pub open spec fn program_planned(probe: ProbeConfig, path: String, flags: FeatureFlags) -> bool {
    probe.bpf_name matches Some(name) && bpf_file_enabled(name@, flags) && path@ == bpf_path(
        name@,
    )
}

/// Some probe resolved so far needs the Binder interface map.
pub open spec fn some_needs_binder_map(resolved: Seq<ResolvedProbe>) -> bool {
    exists|k: int| 0 <= k < resolved.len() && #[trigger] needs_binder_map(resolved[k])
}

impl ProbeResolver {
    /// The task whose probes are resolved.
    pub closed spec fn task(&self) -> ResolvedTask {
        self.orig@
    }

    /// The feature flags.
    pub closed spec fn flags(&self) -> FeatureFlags {
        self.flags
    }

    /// All the probes, in order.
    pub closed spec fn all_probes(&self) -> Seq<ProbeConfig> {
        self.all@
    }

    /// The probes resolved so far, in order.
    pub closed spec fn resolved(&self) -> Seq<ResolvedProbe> {
        self.resolved@
    }

    /// Whether the Binder interface map has been opened.
    pub closed spec fn binder_map_open(&self) -> bool {
        self.binder_map_open
    }

    /// Where resolution stands.
    pub closed spec fn phase(&self) -> ResolverPhase {
        match self.stage {
            Stage::Next => ResolverPhase::Next,
            Stage::Querying { .. } => ResolverPhase::Querying,
            Stage::Searching { .. } => ResolverPhase::Searching,
            Stage::OpeningMap { .. } => ResolverPhase::OpeningMap,
            Stage::Writing { .. } => ResolverPhase::Writing,
            Stage::Finished => ResolverPhase::Finished,
            Stage::Failed => ResolverPhase::Failed,
        }
    }

    /// The probe being resolved: the first one not resolved yet.
    pub open spec fn current(&self) -> ProbeConfig {
        self.all_probes()[self.resolved().len() as int]
    }

    /// The current probe's BPF program path, while its offset is sought.
    pub closed spec fn bpf_program_path(&self) -> String {
        match self.stage {
            Stage::Querying { bpf_program_path, .. } => bpf_program_path,
            Stage::Searching { bpf_program_path, .. } => bpf_program_path,
            _ => arbitrary(),
        }
    }

    /// The class whose offsets are queried.
    pub closed spec fn class_name(&self) -> String {
        match self.stage {
            Stage::Querying { class_name, .. } => class_name,
            _ => arbitrary(),
        }
    }

    /// The search through the current probe's code files.
    pub closed spec fn search(&self) -> OatdumpSearch {
        match self.stage {
            Stage::Searching { search, .. } => search,
            _ => arbitrary(),
        }
    }

    /// The resolved probe whose Binder filters are being written.
    pub closed spec fn pending(&self) -> ResolvedProbe {
        match self.stage {
            Stage::OpeningMap { pending } => pending,
            Stage::Writing { pending, .. } => pending,
            _ => arbitrary(),
        }
    }

    /// The Binder filter being written.
    pub closed spec fn next_filter(&self) -> int {
        match self.stage {
            Stage::Writing { filter, .. } => filter as int,
            _ => arbitrary(),
        }
    }

    /// The resolver's state is consistent.
    pub closed spec fn wf(&self) -> bool {
        &&& self.resolved@.len() <= self.all@.len()
        &&& self.task.uid == self.orig@.uid
        &&& self.task.pid == self.orig@.pid
        &&& self.task.process_name == self.orig@.process_name
        &&& forall|k: int| 0 <= k < self.resolved@.len() ==> #[trigger] self.resolved@[k].probe == self.all@[k]
        &&& forall|k: int|
            0 <= k < self.resolved@.len() ==> resolves_to(
                self.all@[k],
                self.orig@,
                self.flags,
                #[trigger] self.resolved@[k],
            )
        &&& match self.stage {
            Stage::Next => {
                &&& self.remaining@ == self.all@.skip(self.resolved@.len() as int)
                &&& self.binder_map_open == some_needs_binder_map(self.resolved@)
            },
            Stage::Querying { probe, bpf_program_path, .. } => {
                &&& self.resolved@.len() < self.all@.len()
                &&& probe == self.all@[self.resolved@.len() as int]
                &&& self.remaining@ == self.all@.skip(self.resolved@.len() + 1int)
                &&& self.binder_map_open == some_needs_binder_map(self.resolved@)
                &&& program_planned(probe, bpf_program_path, self.flags)
                &&& probe.fully_qualified_class_name is Some
                &&& probe.method_name is Some
                &&& self.orig@.uid >= 0
            },
            Stage::Searching { probe, search, bpf_program_path } => {
                &&& self.resolved@.len() < self.all@.len()
                &&& probe == self.all@[self.resolved@.len() as int]
                &&& self.remaining@ == self.all@.skip(self.resolved@.len() + 1int)
                &&& self.binder_map_open == some_needs_binder_map(self.resolved@)
                &&& search.wf()
                &&& !search.is_done()
                &&& program_planned(probe, bpf_program_path, self.flags)
                &&& probe.fully_qualified_class_name is None
                &&& probe.method_signature is Some
                &&& search.file_paths()@ == probe.file_paths@
            },
            Stage::OpeningMap { pending } => {
                &&& self.resolved@.len() < self.all@.len()
                &&& pending.probe == self.all@[self.resolved@.len() as int]
                &&& self.remaining@ == self.all@.skip(self.resolved@.len() + 1int)
                &&& !self.binder_map_open
                &&& !some_needs_binder_map(self.resolved@)
                &&& resolves_to(pending.probe, self.orig@, self.flags, pending)
                &&& needs_binder_map(pending)
            },
            Stage::Writing { pending, filter } => {
                &&& self.resolved@.len() < self.all@.len()
                &&& pending.probe == self.all@[self.resolved@.len() as int]
                &&& self.remaining@ == self.all@.skip(self.resolved@.len() + 1int)
                &&& self.binder_map_open
                &&& filter < pending.probe.binder_transaction_filters@.len()
                &&& resolves_to(pending.probe, self.orig@, self.flags, pending)
                &&& needs_binder_map(pending)
            },
            Stage::Finished => {
                &&& self.resolved@.len() == self.all@.len()
                &&& self.binder_map_open == some_needs_binder_map(self.resolved@)
            },
            Stage::Failed => true,
        }
    }

    /// Starts resolving the probes of a task, in the order the task lists them.
    pub fn new(task: ResolvedTask, flags: FeatureFlags) -> (r: Self)
        ensures
            r.wf(),
            r.task() == task,
            r.flags() == flags,
            r.all_probes() == task.task.probe_configs@,
            r.resolved() == Seq::<ResolvedProbe>::empty(),
            !r.binder_map_open(),
            r.phase() == ResolverPhase::Next,
    {
        let ghost orig = task;
        let mut task = task;
        let mut probes: Vec<ProbeConfig> = Vec::new();
        std::mem::swap(&mut probes, &mut task.task.probe_configs);
        let ghost all = probes@;
        let r = ProbeResolver {
            task,
            orig: Ghost(orig),
            flags,
            remaining: probes,
            resolved: Vec::new(),
            binder_map_open: false,
            stage: Stage::Next,
            all: Ghost(all),
        };
        assert(all.skip(0) =~= all);
        assert(!some_needs_binder_map(Seq::<ResolvedProbe>::empty()));
        r
    }

    /// Moves the current stage out, leaving a failed one.
    fn take_stage(&mut self) -> (r: Stage)
        ensures
            r == old(self).stage,
            final(self).stage == Stage::Failed,
            final(self).task == old(self).task,
            final(self).orig == old(self).orig,
            final(self).flags == old(self).flags,
            final(self).remaining == old(self).remaining,
            final(self).resolved == old(self).resolved,
            final(self).binder_map_open == old(self).binder_map_open,
            final(self).all == old(self).all,
    {
        let mut stage = Stage::Failed;
        std::mem::swap(&mut stage, &mut self.stage);
        stage
    }

    /// Starts the next probe, or ends when every probe is resolved.
    pub fn next_action(&mut self) -> (r: ProbeAction)
        requires
            old(self).wf(),
            old(self).phase() == ResolverPhase::Next,
        ensures
            final(self).wf(),
            final(self).task() == old(self).task(),
            final(self).flags() == old(self).flags(),
            final(self).all_probes() == old(self).all_probes(),
            final(self).resolved() == old(self).resolved(),
            final(self).binder_map_open() == old(self).binder_map_open(),
            old(self).resolved().len() == old(self).all_probes().len() ==> r
                == ProbeAction::Finished && final(self).phase() == ResolverPhase::Finished,
            old(self).resolved().len() < old(self).all_probes().len() ==> exists|
                plan: Result<ProbePlan, ResolveError>,
            |
                plan_matches(plan, old(self).current(), old(self).task(), old(self).flags())
                    && plan_outcome(plan, r, *final(self)),
    {
        let ghost n = self.resolved@.len();
        if self.remaining.len() == 0 {
            assert(self.all@.skip(n as int).len() == 0);
            self.stage = Stage::Finished;
            return ProbeAction::Finished;
        }
        let probe = self.remaining.remove(0);
        proof {
            assert(self.all@.skip(n as int)[0] == self.all@[n as int]);
            assert(self.remaining@ =~= self.all@.skip(n + 1int));
        }
        let plan = plan_probe(&probe, &self.task, &self.flags);
        let ghost plan_ghost = plan;
        let r = match plan {
            Err(e) => {
                self.stage = Stage::Failed;
                ProbeAction::Failed(e)
            },
            Ok(p) => {
                let bpf_program_path = p.bpf_program_path;
                match p.source {
                    OffsetSource::Query(q) => {
                        let class_name = q.class_name.clone();
                        self.stage = Stage::Querying { probe, bpf_program_path, class_name };
                        ProbeAction::QueryOffsets(q)
                    },
                    OffsetSource::Oatdump(search) => {
                        match search.next_file() {
                            None => {
                                self.stage = Stage::Failed;
                                ProbeAction::Failed(
                                    ResolveError::OffsetNotFound(search.signature().clone()),
                                )
                            },
                            Some(f) => {
                                let file_path = f.clone();
                                let method_signature = search.signature().clone();
                                self.stage = Stage::Searching { probe, bpf_program_path, search };
                                ProbeAction::RunOatdump { file_path, method_signature }
                            },
                        }
                    },
                }
            },
        };
        proof {
            assert(plan_matches(plan_ghost, old(self).current(), old(self).task(), old(self).flags()));
            assert(plan_outcome(plan_ghost, r, *self));
        }
        r
    }

    /// Continues once the Binder map is open: writes the first filter of the pending probe.
    fn start_filters(&mut self, pending: ResolvedProbe, k: usize) -> (r: ProbeAction)
        requires
            old(self).binder_map_open,
            old(self).resolved@.len() < old(self).all@.len(),
            forall|j: int| 0 <= j < old(self).resolved@.len() ==> #[trigger] old(self).resolved@[j].probe == old(self).all@[j],
            pending.probe == old(self).all@[old(self).resolved@.len() as int],
            old(self).remaining@ == old(self).all@.skip(old(self).resolved@.len() + 1int),
            old(self).stage == Stage::Failed,
            old(self).task.uid == old(self).orig@.uid,
            old(self).task.pid == old(self).orig@.pid,
            old(self).task.process_name == old(self).orig@.process_name,
            forall|j: int|
                0 <= j < old(self).resolved@.len() ==> resolves_to(
                    old(self).all@[j],
                    old(self).orig@,
                    old(self).flags,
                    #[trigger] old(self).resolved@[j],
                ),
            resolves_to(pending.probe, old(self).orig@, old(self).flags, pending),
            needs_binder_map(pending),
        ensures
            final(self).wf(),
            final(self).task() == old(self).task(),
            final(self).flags() == old(self).flags(),
            final(self).all_probes() == old(self).all_probes(),
            final(self).binder_map_open(),
            filters_outcome(pending, k as int, old(self).resolved(), r, *final(self)),
    {
        let n = pending.probe.binder_transaction_filters.len();
        if k == 0 && n == 0 {
            return ProbeAction::Failed(ResolveError::BinderFiltersMissing);
        }
        if k >= n {
            let ghost pg = pending;
            self.resolved.push(pending);
            proof {
                lemma_push_resolved(old(self).resolved@, pg, self.all@, self.orig@, self.flags);
                assert(self.remaining@ =~= self.all@.skip(self.resolved@.len() as int));
            }
            self.stage = Stage::Next;
            return ProbeAction::ProbeResolved;
        }
        let entry = binder_filter_entry(&pending.probe.binder_transaction_filters[k]);
        let ghost er = entry;
        match entry {
            Err(e) => ProbeAction::Failed(e),
            Ok(en) => {
                self.stage = Stage::Writing { pending, filter: k };
                let r = ProbeAction::WriteBinderFilter { entry: en, flags: UpdateMapElemFlags::Insert };
                assert(filter_entry_matches(er, pending.probe.binder_transaction_filters@[k as int]));
                r
            },
        }
    }

    /// Takes the platform's offsets for the current probe's method (`None` when it knows
    /// none).
    pub fn on_offsets(&mut self, offsets: Option<MethodFileOffsets>) -> (r: ProbeAction)
        requires
            old(self).wf(),
            old(self).phase() == ResolverPhase::Querying,
        ensures
            final(self).wf(),
            final(self).task() == old(self).task(),
            final(self).flags() == old(self).flags(),
            final(self).all_probes() == old(self).all_probes(),
            old(self).binder_map_open() ==> final(self).binder_map_open(),
            match offsets {
                None => r == ProbeAction::Failed(ResolveError::OffsetsNotFound(old(self).class_name()))
                    && final(self).phase() == ResolverPhase::Failed,
                Some(o) => if o.method_offset > i32::MAX {
                    r == ProbeAction::Failed(ResolveError::MethodOffsetOutOfRange(o.method_offset))
                        && final(self).phase() == ResolverPhase::Failed
                } else {
                    resolved_probe_outcome(
                        ResolvedProbe {
                            probe: old(self).current(),
                            filename: o.container_path,
                            offset: o.method_offset as i32,
                            bpf_program_path: old(self).bpf_program_path(),
                        },
                        old(self).binder_map_open(),
                        old(self).resolved(),
                        r,
                        *final(self),
                    )
                },
            },
    {
        let stage = self.take_stage();
        let (probe, bpf_program_path, class_name) = match stage {
            Stage::Querying { probe, bpf_program_path, class_name } => (
                probe,
                bpf_program_path,
                class_name,
            ),
            _ => {
                assert(false);
                return ProbeAction::Finished;
            },
        };
        let offsets = match offsets {
            None => return ProbeAction::Failed(ResolveError::OffsetsNotFound(class_name)),
            Some(o) => o,
        };
        if offsets.method_offset > 2147483647u64 {
            return ProbeAction::Failed(ResolveError::MethodOffsetOutOfRange(offsets.method_offset));
        }
        let ghost og = offsets;
        let pending = ResolvedProbe {
            probe,
            filename: offsets.container_path,
            offset: offsets.method_offset as i32,
            bpf_program_path,
        };
        assert(offsets_give(og, pending));
        assert(resolves_to(pending.probe, self.orig@, self.flags, pending));
        if !needs_binder_filters(&pending) {
            let ghost pg = pending;
            self.resolved.push(pending);
            proof {
                lemma_push_resolved(old(self).resolved@, pg, self.all@, self.orig@, self.flags);
                assert(self.remaining@ =~= self.all@.skip(self.resolved@.len() as int));
            }
            self.stage = Stage::Next;
            return ProbeAction::ProbeResolved;
        }
        if !self.binder_map_open {
            self.stage = Stage::OpeningMap { pending };
            return ProbeAction::OpenBinderMap;
        }
        self.start_filters(pending, 0)
    }

    /// Continues once the Binder interface map is open.
    pub fn on_binder_map_opened(&mut self) -> (r: ProbeAction)
        requires
            old(self).wf(),
            old(self).phase() == ResolverPhase::OpeningMap,
        ensures
            final(self).wf(),
            final(self).task() == old(self).task(),
            final(self).flags() == old(self).flags(),
            final(self).all_probes() == old(self).all_probes(),
            final(self).binder_map_open(),
            filters_outcome(old(self).pending(), 0, old(self).resolved(), r, *final(self)),
    {
        let stage = self.take_stage();
        let pending = match stage {
            Stage::OpeningMap { pending } => pending,
            _ => {
                assert(false);
                return ProbeAction::Finished;
            },
        };
        self.binder_map_open = true;
        self.start_filters(pending, 0)
    }

    /// Continues once a Binder filter entry is written.
    pub fn on_filter_written(&mut self) -> (r: ProbeAction)
        requires
            old(self).wf(),
            old(self).phase() == ResolverPhase::Writing,
        ensures
            final(self).wf(),
            final(self).task() == old(self).task(),
            final(self).flags() == old(self).flags(),
            final(self).all_probes() == old(self).all_probes(),
            final(self).binder_map_open(),
            filters_outcome(
                old(self).pending(),
                old(self).next_filter() + 1,
                old(self).resolved(),
                r,
                *final(self),
            ),
    {
        let stage = self.take_stage();
        let (pending, filter) = match stage {
            Stage::Writing { pending, filter } => (pending, filter),
            _ => {
                assert(false);
                return ProbeAction::Finished;
            },
        };
        let count = pending.probe.binder_transaction_filters.len();
        assert(filter < count);
        self.start_filters(pending, filter + 1)
    }

    /// Takes what `oatdump` gave for the file last asked for: an offset, or nothing when
    /// it failed or did not list the method.
    pub fn on_oatdump(&mut self, found_offset: Option<i32>) -> (r: ProbeAction)
        requires
            old(self).wf(),
            old(self).phase() == ResolverPhase::Searching,
        ensures
            final(self).wf(),
            final(self).task() == old(self).task(),
            final(self).flags() == old(self).flags(),
            final(self).all_probes() == old(self).all_probes(),
            final(self).binder_map_open() == old(self).binder_map_open(),
            ({
                let files = old(self).search().file_paths()@;
                let signature = old(self).search().method_signature();
                let outcomes = old(self).search().outcomes().push(
                    match found_offset {
                        Some(o) => o,
                        None => 0,
                    },
                );
                if !search_done(outcomes, files.len()) {
                    r == ProbeAction::RunOatdump {
                        file_path: files[outcomes.len() as int],
                        method_signature: signature,
                    } && final(self).phase() == ResolverPhase::Searching
                        && final(self).search().outcomes() == outcomes
                        && final(self).search().file_paths() == old(self).search().file_paths()
                        && final(self).search().method_signature() == signature
                        && final(self).resolved() == old(self).resolved()
                } else {
                    match first_positive(outcomes) {
                        Some(i) => r == ProbeAction::ProbeResolved && final(self).phase()
                            == ResolverPhase::Next && final(self).resolved() == old(
                            self,
                        ).resolved().push(
                            ResolvedProbe {
                                probe: old(self).current(),
                                filename: files[i],
                                offset: outcomes[i],
                                bpf_program_path: old(self).bpf_program_path(),
                            },
                        ),
                        None => r == ProbeAction::Failed(ResolveError::OffsetNotFound(signature))
                            && final(self).phase() == ResolverPhase::Failed,
                    }
                }
            }),
    {
        let stage = self.take_stage();
        let (probe, bpf_program_path, mut search) = match stage {
            Stage::Searching { probe, bpf_program_path, search } => (
                probe,
                bpf_program_path,
                search,
            ),
            _ => {
                assert(false);
                return ProbeAction::Finished;
            },
        };
        let ghost probe_g = probe;
        search.record(found_offset);
        match search.next_file() {
            Some(f) => {
                let file_path = f.clone();
                let method_signature = search.signature().clone();
                self.stage = Stage::Searching { probe, bpf_program_path, search };
                ProbeAction::RunOatdump { file_path, method_signature }
            },
            None => {
                match search.finish(probe, bpf_program_path) {
                    Err(e) => ProbeAction::Failed(e),
                    Ok(p) => {
                        let ghost pg = p;
                        proof {
                            let outs = search.outcomes();
                            assert(oatdump_gives(outs, probe_g.file_paths@, pg));
                            assert(resolves_to(probe_g, self.orig@, self.flags, pg));
                        }
                        self.resolved.push(p);
                        proof {
                            lemma_push_resolved(old(self).resolved@, pg, self.all@, self.orig@, self.flags);
                            assert(self.remaining@ =~= self.all@.skip(self.resolved@.len() as int));
                        }
                        self.stage = Stage::Next;
                        ProbeAction::ProbeResolved
                    },
                }
            },
        }
    }

    /// The resolved probes, each with the probe it resolves, in order, and whether the
    /// Binder interface map was opened.
    pub fn into_resolved(self) -> (r: (Vec<ResolvedProbe>, bool))
        requires
            self.wf(),
            self.phase() == ResolverPhase::Finished,
        ensures
            r.0@ == self.resolved(),
            r.1 == self.binder_map_open(),
            r.0@.len() == self.all_probes().len(),
            forall|k: int| 0 <= k < r.0@.len() ==> #[trigger] r.0@[k].probe == self.all_probes()[k],
            forall|k: int|
                0 <= k < r.0@.len() ==> resolves_to(
                    self.all_probes()[k],
                    self.task(),
                    self.flags(),
                    #[trigger] r.0@[k],
                ),
            r.1 == some_needs_binder_map(r.0@),
    {
        (self.resolved, self.binder_map_open)
    }
}

/// Appending the resolution of the next probe keeps the resolved probes in order, each
/// the resolution of its probe, and some of them needs the Binder interface map exactly
/// when some did before or the new one does.
proof fn lemma_push_resolved(
    before: Seq<ResolvedProbe>,
    rp: ResolvedProbe,
    all: Seq<ProbeConfig>,
    task: ResolvedTask,
    flags: FeatureFlags,
)
    requires
        before.len() < all.len(),
        forall|j: int| 0 <= j < before.len() ==> #[trigger] before[j].probe == all[j],
        forall|j: int| 0 <= j < before.len() ==> resolves_to(all[j], task, flags, #[trigger] before[j]),
        rp.probe == all[before.len() as int],
        resolves_to(rp.probe, task, flags, rp),
    ensures
        forall|j: int| 0 <= j < before.push(rp).len() ==> #[trigger] before.push(rp)[j].probe == all[j],
        forall|j: int|
            0 <= j < before.push(rp).len() ==> resolves_to(all[j], task, flags, #[trigger] before.push(rp)[j]),
        some_needs_binder_map(before.push(rp)) == (some_needs_binder_map(before) || needs_binder_map(rp)),
{
    let s = before.push(rp);
    assert forall|j: int| 0 <= j < s.len() implies #[trigger] s[j].probe == all[j] && resolves_to(all[j], task, flags, s[j]) by {
        if j < before.len() {
            assert(s[j] == before[j]);
        }
    }
    if some_needs_binder_map(s) && !needs_binder_map(rp) {
        let k = choose|k: int| 0 <= k < s.len() && #[trigger] needs_binder_map(s[k]);
        assert(s[k] == before[k]);
    }
    if some_needs_binder_map(before) {
        let k = choose|k: int| 0 <= k < before.len() && #[trigger] needs_binder_map(before[k]);
        assert(s[k] == before[k]);
    }
    if needs_binder_map(rp) {
        assert(s[before.len() as int] == rp);
    }
}

/// The Binder interface map is asked to be opened only while it is not open, and never
/// while filters are written: with the map staying open once opened, it is opened at
/// most once in a resolution.
pub proof fn lemma_binder_map_opened_once(
    pending: ResolvedProbe,
    map_was_open: bool,
    k: int,
    before: Seq<ResolvedProbe>,
    s: ProbeResolver,
)
    ensures
        resolved_probe_outcome(pending, map_was_open, before, ProbeAction::OpenBinderMap, s)
            ==> !map_was_open,
        !filters_outcome(pending, k, before, ProbeAction::OpenBinderMap, s),
{
}

} // verus!
