//! The allow list of code that may be instrumented on user builds.
use crate::config::{ProbeConfig, Task, UprobestatsConfig};
use crate::seqs::{
    first_some, lemma_first_some_all, lemma_first_some_append, lemma_first_some_prefix,
    lemma_first_some_step,
};
use crate::text::{chars_of, second_field, starts_with, str_second_field};
use vstd::prelude::*;

verus! {

/// Why a probe's method name cannot be formed.
#[derive(Clone, Copy, Debug, PartialEq, Eq)]
pub enum GuardrailError {
    /// The probe names no fully qualified class.
    ClassNameMissing,
    /// The probe names no method.
    MethodNameMissing,
    /// The probe has no method signature.
    MethodSignatureMissing,
    /// The method signature has no space-separated second field.
    MethodSignatureInvalid,
}

/// The number of allowed method prefixes.
pub const ALLOWED_METHOD_PREFIX_COUNT: usize = 6;

/// The `i`-th method prefix that may be instrumented on user builds.
pub open spec fn allowed_method_prefix(i: int) -> Seq<char> {
    if i == 0 {
        "com.android.server.am.ActivityManagerService$LocalService.updateDeviceIdleTempAllowlist"@
    } else if i == 1 {
        "com.android.server.am.CachedAppOptimizer"@
    } else if i == 2 {
        "com.android.server.am.OomAdjuster"@
    } else if i == 3 {
        "com.android.server.am.OomAdjusterModernImpl"@
    } else if i == 4 {
        "com.android.server.pm.PackageManagerService$IPackageManagerImpl.setComponentEnabledSetting"@
    } else {
        "com.android.server.am.ActiveServices.bindServiceLocked"@
    }
}

/// `name` is `prefix` itself, or `prefix` followed by `(`, `.` or `$`.
pub open spec fn matches_allowed_prefix(name: Seq<char>, prefix: Seq<char>) -> bool {
    ||| name == prefix
    ||| starts_with(name, prefix.push('('))
    ||| starts_with(name, prefix.push('.'))
    ||| starts_with(name, prefix.push('$'))
}

/// `name` falls under one of the allowed prefixes.
pub open spec fn method_allowed(name: Seq<char>) -> bool {
    exists|i: int|
        0 <= i < ALLOWED_METHOD_PREFIX_COUNT && matches_allowed_prefix(
            name,
            #[trigger] allowed_method_prefix(i),
        )
}

/// The full method name of a probe: `<class>.<method>` when the offsets API is used,
/// else the second space-separated field of the method signature.
pub open spec fn full_method_name(probe: ProbeConfig, offsets_api_enabled: bool) -> Result<
    Seq<char>,
    GuardrailError,
> {
    if offsets_api_enabled {
        match probe.fully_qualified_class_name {
            None => Err(GuardrailError::ClassNameMissing),
            Some(class) => match probe.method_name {
                None => Err(GuardrailError::MethodNameMissing),
                Some(method) => Ok(class@.push('.') + method@),
            },
        }
    } else {
        match probe.method_signature {
            None => Err(GuardrailError::MethodSignatureMissing),
            Some(sig) => match second_field(sig@, ' ') {
                None => Err(GuardrailError::MethodSignatureInvalid),
                Some(f) => Ok(f),
            },
        }
    }
}

/// What one probe decides: nothing when its method is allowed, else a refusal or an error.
pub open spec fn probe_verdict(offsets_api_enabled: bool) -> spec_fn(ProbeConfig) -> Option<
    Result<bool, GuardrailError>,
> {
    |probe: ProbeConfig|
        match full_method_name(probe, offsets_api_enabled) {
            Err(e) => Some(Err(e)),
            Ok(name) => if method_allowed(name) {
                None
            } else {
                Some(Ok(false))
            },
        }
}

/// What one task decides: the verdict of its first deciding probe.
pub open spec fn task_verdict(offsets_api_enabled: bool) -> spec_fn(Task) -> Option<
    Result<bool, GuardrailError>,
> {
    |task: Task| first_some(task.probe_configs@, probe_verdict(offsets_api_enabled))
}

/// Whether a configuration may run: always on builds other than user builds; on user
/// builds, probes are checked in order and the first one whose method is not allowed,
/// or whose method name cannot be formed, decides.
pub open spec fn config_allowed(
    config: UprobestatsConfig,
    is_user_build: bool,
    offsets_api_enabled: bool,
) -> Result<bool, GuardrailError> {
    if !is_user_build {
        Ok(true)
    } else {
        match first_some(config.tasks@, task_verdict(offsets_api_enabled)) {
            None => Ok(true),
            Some(v) => v,
        }
    }
}

/// The text of a result that holds a string.
pub open spec fn result_view<E>(r: Result<String, E>) -> Result<Seq<char>, E> {
    match r {
        Ok(s) => Ok(s@),
        Err(e) => Err(e),
    }
}

/// The `i`-th allowed method prefix.
fn allowed_method_prefix_str(i: usize) -> (r: &'static str)
    requires
        i < ALLOWED_METHOD_PREFIX_COUNT,
    ensures
        r@ == allowed_method_prefix(i as int),
{
    if i == 0 {
        "com.android.server.am.ActivityManagerService$LocalService.updateDeviceIdleTempAllowlist"
    } else if i == 1 {
        "com.android.server.am.CachedAppOptimizer"
    } else if i == 2 {
        "com.android.server.am.OomAdjuster"
    } else if i == 3 {
        "com.android.server.am.OomAdjusterModernImpl"
    } else if i == 4 {
        "com.android.server.pm.PackageManagerService$IPackageManagerImpl.setComponentEnabledSetting"
    } else {
        "com.android.server.am.ActiveServices.bindServiceLocked"
    }
}

proof fn lemma_starts_with_push(name: Seq<char>, prefix: Seq<char>, c: char)
    ensures
        starts_with(name, prefix.push(c)) <==> (prefix.len() < name.len() && name.take(
            prefix.len() as int,
        ) == prefix && name[prefix.len() as int] == c),
{
    let n = prefix.len() as int;
    if starts_with(name, prefix.push(c)) {
        let t1 = name.take(n + 1);
        assert(t1 == prefix.push(c));
        assert(name.take(n) =~= t1.drop_last());
        assert(prefix.push(c).drop_last() =~= prefix);
        assert(name[n] == t1[n]);
        assert(prefix.push(c)[n] == c);
    }
    if prefix.len() < name.len() && name.take(n) == prefix && name[n] == c {
        assert forall|k: int| 0 <= k < n + 1 implies name.take(n + 1)[k] == prefix.push(c)[k] by {
            if k < n {
                assert(name.take(n)[k] == name[k]);
            }
        }
        assert(name.take(n + 1) =~= prefix.push(c));
    }
}

/// Whether `name` is `prefix`, or `prefix` followed by `(`, `.` or `$`.
fn matches_prefix(name: &Vec<char>, prefix: &Vec<char>) -> (r: bool)
    ensures
        r == matches_allowed_prefix(name@, prefix@),
{
    proof {
        lemma_starts_with_push(name@, prefix@, '(');
        lemma_starts_with_push(name@, prefix@, '.');
        lemma_starts_with_push(name@, prefix@, '$');
    }
    if !crate::text::seq_starts_with(name, prefix) {
        assert(name@ != prefix@) by {
            if name@ == prefix@ {
                assert(name@.take(prefix@.len() as int) =~= name@);
            }
        }
        return false;
    }
    if name.len() == prefix.len() {
        assert(name@ =~= name@.take(prefix@.len() as int));
        return true;
    }
    let c = name[prefix.len()];
    c == '(' || c == '.' || c == '$'
}

/// Whether `name` falls under one of the allowed prefixes.
fn is_method_allowed(name: &Vec<char>) -> (r: bool)
    ensures
        r == method_allowed(name@),
{
    let mut i: usize = 0;
    while i < ALLOWED_METHOD_PREFIX_COUNT
        invariant
            i <= ALLOWED_METHOD_PREFIX_COUNT,
            forall|k: int|
                0 <= k < i ==> !matches_allowed_prefix(name@, #[trigger] allowed_method_prefix(k)),
        decreases ALLOWED_METHOD_PREFIX_COUNT - i,
    {
        let prefix = chars_of(allowed_method_prefix_str(i));
        if matches_prefix(name, &prefix) {
            return true;
        }
        i += 1;
    }
    false
}

/// The full method name of a probe: `<class>.<method>` when the offsets API is used,
/// else the second space-separated field of the method signature.
pub fn get_full_method_name(probe_config: &ProbeConfig, offsets_api_enabled: bool) -> (r: Result<
    String,
    GuardrailError,
>)
    ensures
        result_view(r) == full_method_name(*probe_config, offsets_api_enabled),
{
    if offsets_api_enabled {
        let fqcn = match &probe_config.fully_qualified_class_name {
            None => return Err(GuardrailError::ClassNameMissing),
            Some(c) => c,
        };
        let method_name = match &probe_config.method_name {
            None => return Err(GuardrailError::MethodNameMissing),
            Some(m) => m,
        };
        let mut name = fqcn.clone();
        name.append(".");
        name.append(method_name.as_str());
        proof {
            reveal_strlit(".");
            assert(name@ =~= fqcn@.push('.') + method_name@);
        }
        Ok(name)
    } else {
        let sig = match &probe_config.method_signature {
            None => return Err(GuardrailError::MethodSignatureMissing),
            Some(s) => s,
        };
        match str_second_field(sig.as_str(), ' ') {
            None => Err(GuardrailError::MethodSignatureInvalid),
            Some(f) => Ok(f),
        }
    }
}

/// Whether the given configuration may be instrumented.
///
/// On builds other than user builds every configuration is allowed. On user builds the
/// probes are checked in order: the first whose full method name cannot be formed gives
/// that error, and the first whose method falls under no allowed prefix makes the answer
/// `false`.
pub fn is_allowed(config: &UprobestatsConfig, is_user_build: bool, offsets_api_enabled: bool) -> (r:
    Result<bool, GuardrailError>)
    ensures
        r == config_allowed(*config, is_user_build, offsets_api_enabled),
        !is_user_build ==> r == Ok::<bool, GuardrailError>(true),
{
    if !is_user_build {
        return Ok(true);
    }
    let ghost tasks = config.tasks@;
    let ghost tv = task_verdict(offsets_api_enabled);
    let ghost pv = probe_verdict(offsets_api_enabled);
    let mut i: usize = 0;
    while i < config.tasks.len()
        invariant
            i <= tasks.len(),
            is_user_build,
            tasks == config.tasks@,
            tv == task_verdict(offsets_api_enabled),
            pv == probe_verdict(offsets_api_enabled),
            first_some(tasks.take(i as int), tv) is None,
        decreases tasks.len() - i,
    {
        let task = &config.tasks[i];
        let ghost probes = task.probe_configs@;
        let mut j: usize = 0;
        while j < task.probe_configs.len()
            invariant
                j <= probes.len(),
                is_user_build,
                i < tasks.len(),
                tasks == config.tasks@,
                tv == task_verdict(offsets_api_enabled),
                first_some(tasks.take(i as int), tv) is None,
                probes == tasks[i as int].probe_configs@,
                probes == task.probe_configs@,
                pv == probe_verdict(offsets_api_enabled),
                first_some(probes.take(j as int), pv) is None,
            decreases probes.len() - j,
        {
            let probe = &task.probe_configs[j];
            proof {
                lemma_first_some_step(probes, pv, j as int);
            }
            let verdict = match get_full_method_name(probe, offsets_api_enabled) {
                Err(e) => Err(e),
                Ok(name) => {
                    let chars = chars_of(name.as_str());
                    if is_method_allowed(&chars) {
                        Ok(true)
                    } else {
                        Ok(false)
                    }
                },
            };
            match verdict {
                Ok(true) => {},
                _ => {
                    proof {
                        lemma_first_some_prefix(probes, pv, j + 1);
                        lemma_first_some_step(tasks, tv, i as int);
                        lemma_first_some_prefix(tasks, tv, i + 1);
                    }
                    return verdict;
                },
            }
            j += 1;
        }
        proof {
            lemma_first_some_all(probes, pv);
            lemma_first_some_step(tasks, tv, i as int);
        }
        i += 1;
    }
    proof {
        lemma_first_some_all(tasks, tv);
    }
    Ok(true)
}

/// A configuration whose first tasks are allowed stays allowed when tasks are removed
/// from its end: checking goes through tasks in order.
pub proof fn lemma_allowed_prefix_closed(
    config: UprobestatsConfig,
    more: Seq<Task>,
    is_user_build: bool,
    offsets_api_enabled: bool,
    extended: UprobestatsConfig,
)
    requires
        extended.tasks@ == config.tasks@ + more,
        config_allowed(extended, is_user_build, offsets_api_enabled) == Ok::<
            bool,
            GuardrailError,
        >(true),
    ensures
        config_allowed(config, is_user_build, offsets_api_enabled) == Ok::<bool, GuardrailError>(
            true,
        ),
{
    lemma_first_some_append(config.tasks@, more, task_verdict(offsets_api_enabled));
}

/// No probe or task ever decides `Ok(true)`: a deciding item refuses or fails.
proof fn lemma_no_task_verdict_is_true(tasks: Seq<Task>, offsets_api_enabled: bool)
    ensures
        first_some(tasks, task_verdict(offsets_api_enabled)) != Some(
            Ok::<bool, GuardrailError>(true),
        ),
{
    let tv = task_verdict(offsets_api_enabled);
    let pv = probe_verdict(offsets_api_enabled);
    crate::seqs::lemma_first_some_from_item(tasks, tv);
    if first_some(tasks, tv) == Some(Ok::<bool, GuardrailError>(true)) {
        let i = choose|i: int| 0 <= i < tasks.len() && #[trigger] tv(tasks[i]) == Some(
            Ok::<bool, GuardrailError>(true),
        );
        crate::seqs::lemma_first_some_from_item(tasks[i].probe_configs@, pv);
        let j = choose|j: int|
            0 <= j < tasks[i].probe_configs@.len() && #[trigger] pv(tasks[i].probe_configs@[j])
                == Some(Ok::<bool, GuardrailError>(true));
        assert(pv(tasks[i].probe_configs@[j]) != Some(Ok::<bool, GuardrailError>(true)));
    }
}

/// On a user build, an allowed configuration has only probes whose full method name can
/// be formed and falls under an allowed prefix.
pub proof fn lemma_allowed_probes_match_prefix(
    config: UprobestatsConfig,
    offsets_api_enabled: bool,
    t: int,
    p: int,
)
    requires
        config_allowed(config, true, offsets_api_enabled) == Ok::<bool, GuardrailError>(true),
        0 <= t < config.tasks@.len(),
        0 <= p < config.tasks@[t].probe_configs@.len(),
    ensures
        ({
            let name = full_method_name(config.tasks@[t].probe_configs@[p], offsets_api_enabled);
            name is Ok && method_allowed(name->Ok_0)
        }),
{
    let tv = task_verdict(offsets_api_enabled);
    let pv = probe_verdict(offsets_api_enabled);
    lemma_no_task_verdict_is_true(config.tasks@, offsets_api_enabled);
    crate::seqs::lemma_first_some_none(config.tasks@, tv);
    assert(tv(config.tasks@[t]) is None);
    crate::seqs::lemma_first_some_none(config.tasks@[t].probe_configs@, pv);
    assert(pv(config.tasks@[t].probe_configs@[p]) is None);
}

/// A configuration of one task with one probe.
pub open spec fn single_probe(config: UprobestatsConfig) -> bool {
    config.tasks@.len() == 1 && config.tasks@[0].probe_configs@.len() == 1
}

/// The probe of a configuration of one task with one probe.
pub open spec fn the_probe(config: UprobestatsConfig) -> ProbeConfig {
    config.tasks@[0].probe_configs@[0]
}

/// On a user build, a configuration with a single probe gets what that probe decides.
proof fn lemma_single_probe_verdict(config: UprobestatsConfig, offsets_api_enabled: bool)
    requires
        single_probe(config),
    ensures
        config_allowed(config, true, offsets_api_enabled) == match probe_verdict(
            offsets_api_enabled,
        )(the_probe(config)) {
            None => Ok::<bool, GuardrailError>(true),
            Some(v) => v,
        },
{
    let tv = task_verdict(offsets_api_enabled);
    let pv = probe_verdict(offsets_api_enabled);
    crate::seqs::lemma_first_some_single(config.tasks@, tv);
    crate::seqs::lemma_first_some_single(config.tasks@[0].probe_configs@, pv);
}

/// On a user build, a single probe whose full method name is an allowed prefix itself is
/// allowed.
pub proof fn lemma_exact_prefix_allowed(config: UprobestatsConfig, offsets_api_enabled: bool, i: int)
    requires
        single_probe(config),
        0 <= i < ALLOWED_METHOD_PREFIX_COUNT,
        full_method_name(the_probe(config), offsets_api_enabled) == Ok::<Seq<char>, GuardrailError>(
            allowed_method_prefix(i),
        ),
    ensures
        config_allowed(config, true, offsets_api_enabled) == Ok::<bool, GuardrailError>(true),
{
    lemma_single_probe_verdict(config, offsets_api_enabled);
    assert(matches_allowed_prefix(allowed_method_prefix(i), allowed_method_prefix(i)));
}

/// On a user build, a single probe whose full method name is an allowed prefix followed
/// by `(`, `.` or `$` and then any text is allowed.
pub proof fn lemma_prefix_then_separator_allowed(
    config: UprobestatsConfig,
    offsets_api_enabled: bool,
    i: int,
    separator: char,
    rest: Seq<char>,
)
    requires
        single_probe(config),
        0 <= i < ALLOWED_METHOD_PREFIX_COUNT,
        separator == '(' || separator == '.' || separator == '$',
        full_method_name(the_probe(config), offsets_api_enabled) == Ok::<Seq<char>, GuardrailError>(
            allowed_method_prefix(i).push(separator) + rest,
        ),
    ensures
        config_allowed(config, true, offsets_api_enabled) == Ok::<bool, GuardrailError>(true),
{
    lemma_single_probe_verdict(config, offsets_api_enabled);
    let p = allowed_method_prefix(i);
    let name = p.push(separator) + rest;
    assert(name.take(p.push(separator).len() as int) =~= p.push(separator));
    assert(matches_allowed_prefix(name, p));
}

/// On a user build, a single probe whose full method name is neither an allowed prefix
/// nor an allowed prefix followed by `(`, `.` or `$` is refused.
pub proof fn lemma_other_names_refused(
    config: UprobestatsConfig,
    offsets_api_enabled: bool,
    name: Seq<char>,
)
    requires
        single_probe(config),
        full_method_name(the_probe(config), offsets_api_enabled) == Ok::<Seq<char>, GuardrailError>(
            name,
        ),
        forall|i: int| 0 <= i < ALLOWED_METHOD_PREFIX_COUNT ==> name != #[trigger] allowed_method_prefix(i),
        forall|i: int|
            0 <= i < ALLOWED_METHOD_PREFIX_COUNT && name.len() > allowed_method_prefix(i).len()
                && name.take(allowed_method_prefix(i).len() as int) == #[trigger] allowed_method_prefix(i)
                ==> name[allowed_method_prefix(i).len() as int] != '(' && name[allowed_method_prefix(
                i,
            ).len() as int] != '.' && name[allowed_method_prefix(i).len() as int] != '$',
    ensures
        config_allowed(config, true, offsets_api_enabled) == Ok::<bool, GuardrailError>(false),
{
    lemma_single_probe_verdict(config, offsets_api_enabled);
    assert forall|i: int| 0 <= i < ALLOWED_METHOD_PREFIX_COUNT implies !matches_allowed_prefix(
        name,
        #[trigger] allowed_method_prefix(i),
    ) by {
        let p = allowed_method_prefix(i);
        lemma_starts_with_push(name, p, '(');
        lemma_starts_with_push(name, p, '.');
        lemma_starts_with_push(name, p, '$');
    }
}

/// The methods allowed on user builds are those of the six listed prefixes
/// (`ActivityManagerService$LocalService.updateDeviceIdleTempAllowlist`,
/// `CachedAppOptimizer`, `OomAdjuster`, `OomAdjusterModernImpl`,
/// `PackageManagerService$IPackageManagerImpl.setComponentEnabledSetting` and
/// `ActiveServices.bindServiceLocked`): a single probe named by one of them, alone or
/// followed by `(`, `.` or `$` and any text, is allowed.
pub proof fn lemma_listed_prefixes_allowed(
    config: UprobestatsConfig,
    offsets_api_enabled: bool,
    prefix: Seq<char>,
    separator: char,
    rest: Seq<char>,
)
    requires
        single_probe(config),
        prefix == "com.android.server.am.ActivityManagerService$LocalService.updateDeviceIdleTempAllowlist"@
            || prefix == "com.android.server.am.CachedAppOptimizer"@
            || prefix == "com.android.server.am.OomAdjuster"@
            || prefix == "com.android.server.am.OomAdjusterModernImpl"@
            || prefix == "com.android.server.pm.PackageManagerService$IPackageManagerImpl.setComponentEnabledSetting"@
            || prefix == "com.android.server.am.ActiveServices.bindServiceLocked"@,
        separator == '(' || separator == '.' || separator == '$',
        full_method_name(the_probe(config), offsets_api_enabled) == Ok::<Seq<char>, GuardrailError>(prefix)
            || full_method_name(the_probe(config), offsets_api_enabled) == Ok::<
            Seq<char>,
            GuardrailError,
        >(prefix.push(separator) + rest),
    ensures
        config_allowed(config, true, offsets_api_enabled) == Ok::<bool, GuardrailError>(true),
{
    let i: int = if prefix == allowed_method_prefix(0) {
        0
    } else if prefix == allowed_method_prefix(1) {
        1
    } else if prefix == allowed_method_prefix(2) {
        2
    } else if prefix == allowed_method_prefix(3) {
        3
    } else if prefix == allowed_method_prefix(4) {
        4
    } else {
        5
    };
    assert(allowed_method_prefix(i) == prefix);
    if full_method_name(the_probe(config), offsets_api_enabled) == Ok::<Seq<char>, GuardrailError>(
        prefix,
    ) {
        lemma_exact_prefix_allowed(config, offsets_api_enabled, i);
    } else {
        lemma_prefix_then_separator_allowed(config, offsets_api_enabled, i, separator, rest);
    }
}

} // verus!
