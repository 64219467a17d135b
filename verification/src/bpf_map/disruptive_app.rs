//! Handlers of the disruptive app ring buffers: components being disabled, and
//! services bound with the right to start activities from the background.
use super::{c_str_text, field_text, HandlerError};
use crate::text::str_eq;
use vstd::prelude::*;

verus! {

/// `PackageManager#COMPONENT_ENABLED_STATE_DISABLED`: this state and every greater one
/// disable a component.
pub const COMPONENT_ENABLED_STATE_DISABLED: i32 = 2;

/// `Context.BIND_ALLOW_BACKGROUND_ACTIVITY_STARTS`.
pub const BIND_ALLOW_BACKGROUND_ACTIVITY_STARTS: i64 = 0x00100000;

/// A `setComponentEnabledSetting` call, as the ring buffer holds it.
#[derive(Clone, Debug, Default, PartialEq, Eq)]
pub struct ComponentEnabledSetting {
    /// The component's package, as a NUL-terminated C string.
    pub package_name: Vec<u8>,
    /// The component's class, as a NUL-terminated C string.
    pub class_name: Vec<u8>,
    /// The new enabled state.
    pub new_state: i32,
    /// The calling package, as a NUL-terminated C string.
    pub calling_package_name: Vec<u8>,
}

/// A `setComponentEnabledSetting` call, with its strings read.
#[derive(Clone, Debug, Default, PartialEq, Eq)]
pub struct ComponentEnabledSettingCall {
    /// The component's package.
    pub package_name: String,
    /// The component's class.
    pub class_name: String,
    /// The new enabled state.
    pub new_state: i32,
    /// The calling package.
    pub calling_package_name: String,
}

/// What is reported of a component being disabled.
#[derive(Clone, Debug, Default, PartialEq, Eq)]
pub struct ComponentEnabledSettingReport {
    /// The component's package.
    pub package_name: String,
    /// The component's class.
    pub class_name: String,
    /// The new enabled state.
    pub new_state: i32,
    /// The calling package.
    pub calling_package_name: String,
    /// Whether the component is a launcher activity.
    pub is_launcher_activity: bool,
}

/// What to do about a `setComponentEnabledSetting` call.
#[derive(Clone, Debug, Default, PartialEq, Eq)]
pub struct ComponentEnabledSettingPlan {
    /// The report to write, if any.
    pub report: Option<ComponentEnabledSettingReport>,
    /// When a launcher activity is disabled: the packages whose uids are reported, the
    /// caller's and the disabled component's.
    pub launcher_uid_packages: Option<(String, String)>,
}

/// Reports components being disabled.
#[derive(Clone, Copy, Debug, Default, PartialEq, Eq)]
pub struct ComponentEnabledSettingHandler {}

/// The package whose uid stands for a caller: the shell's is `com.android.shell`.
pub open spec fn uid_package_for(calling: Seq<char>) -> Seq<char> {
    if calling == "shell"@ {
        "com.android.shell"@
    } else {
        calling
    }
}

/// A caller's own package stands for it, unless it is `shell`, whose package is
/// `com.android.shell`: no other caller is renamed, and no two callers other than the
/// shell and its package share a package.
pub proof fn lemma_caller_package_kept_unless_shell(calling: Seq<char>, other: Seq<char>)
    ensures
        calling != "shell"@ ==> uid_package_for(calling) == calling,
        calling == "shell"@ ==> uid_package_for(calling) == "com.android.shell"@,
        calling != "shell"@ && other != "shell"@ && calling != other ==> uid_package_for(calling)
            != uid_package_for(other),
{
}

impl ComponentEnabledSettingHandler {
    /// The path of the ring buffer this handler reads.
    pub const MAP_PATH: &'static str =
        "/sys/fs/bpf/uprobestats/map_DisruptiveApp_ComponentEnabledSetting_output_buf";

    /// Reads the strings of a call: the package, the class, then the calling package.
    pub fn decode(&self, data: &ComponentEnabledSetting) -> (r: Result<
        ComponentEnabledSettingCall,
        HandlerError,
    >)
        ensures
            match (
                c_str_text(data.package_name@),
                c_str_text(data.class_name@),
                c_str_text(data.calling_package_name@),
            ) {
                (Err(e), _, _) => r == Err::<ComponentEnabledSettingCall, HandlerError>(
                    HandlerError::CStr(e),
                ),
                (Ok(_), Err(e), _) => r == Err::<ComponentEnabledSettingCall, HandlerError>(
                    HandlerError::CStr(e),
                ),
                (Ok(_), Ok(_), Err(e)) => r == Err::<ComponentEnabledSettingCall, HandlerError>(
                    HandlerError::CStr(e),
                ),
                (Ok(p), Ok(c), Ok(k)) => r matches Ok(call) && call.package_name@ == p
                    && call.class_name@ == c && call.calling_package_name@ == k && call.new_state
                    == data.new_state,
            },
    {
        let package_name = match field_text(data.package_name.as_slice()) {
            Err(e) => return Err(e),
            Ok(s) => s,
        };
        let class_name = match field_text(data.class_name.as_slice()) {
            Err(e) => return Err(e),
            Ok(s) => s,
        };
        let calling_package_name = match field_text(data.calling_package_name.as_slice()) {
            Err(e) => return Err(e),
            Ok(s) => s,
        };
        Ok(
            ComponentEnabledSettingCall {
                package_name,
                class_name,
                new_state: data.new_state,
                calling_package_name,
            },
        )
    }

    /// What to do about a call, given whether its component is a launcher activity:
    /// nothing unless the new state disables the component; then a report (except on
    /// user builds), and, for a launcher activity, the packages whose uids are reported.
    pub fn on_item(
        &mut self,
        call: ComponentEnabledSettingCall,
        is_launcher_activity: bool,
        is_user_build: bool,
    ) -> (r: ComponentEnabledSettingPlan)
        ensures
            call.new_state < COMPONENT_ENABLED_STATE_DISABLED ==> r.report is None
                && r.launcher_uid_packages is None,
            call.new_state >= COMPONENT_ENABLED_STATE_DISABLED ==> {
                &&& (is_user_build ==> r.report is None)
                &&& (!is_user_build ==> r.report == Some(
                    ComponentEnabledSettingReport {
                        package_name: call.package_name,
                        class_name: call.class_name,
                        new_state: call.new_state,
                        calling_package_name: call.calling_package_name,
                        is_launcher_activity,
                    },
                ))
                &&& (!is_launcher_activity ==> r.launcher_uid_packages is None)
                &&& (is_launcher_activity ==> (r.launcher_uid_packages matches Some(
                    (caller, disabled),
                ) && caller@ == uid_package_for(call.calling_package_name@) && disabled
                    == call.package_name))
                &&& (is_launcher_activity && call.calling_package_name@ != "shell"@ ==> (
                r.launcher_uid_packages matches Some((caller, _)) && caller
                    == call.calling_package_name))
            },
    {
        if call.new_state < COMPONENT_ENABLED_STATE_DISABLED {
            return ComponentEnabledSettingPlan { report: None, launcher_uid_packages: None };
        }
        let launcher_uid_packages = if is_launcher_activity {
            let caller = if str_eq(call.calling_package_name.as_str(), "shell") {
                "com.android.shell".to_owned()
            } else {
                call.calling_package_name.clone()
            };
            Some((caller, call.package_name.clone()))
        } else {
            None
        };
        let report = if is_user_build {
            None
        } else {
            Some(
                ComponentEnabledSettingReport {
                    package_name: call.package_name,
                    class_name: call.class_name,
                    new_state: call.new_state,
                    calling_package_name: call.calling_package_name,
                    is_launcher_activity,
                },
            )
        };
        ComponentEnabledSettingPlan { report, launcher_uid_packages }
    }
}

/// A `bindServiceLocked` call, as the ring buffer holds it.
#[derive(Clone, Debug, Default, PartialEq, Eq)]
pub struct BindServiceLocked {
    /// The intent's package, as a NUL-terminated C string.
    pub intent_package: Vec<u8>,
    /// The intent's action, as a NUL-terminated C string.
    pub intent_action: Vec<u8>,
    /// The package of the intent's component, as a NUL-terminated C string.
    pub intent_component_name_package: Vec<u8>,
    /// The class of the intent's component, as a NUL-terminated C string.
    pub intent_component_name_class: Vec<u8>,
    /// The bind flags.
    pub bind_flags: i64,
    /// The calling package, as a NUL-terminated C string.
    pub calling_package: Vec<u8>,
}

/// What is reported of a binding with the right to start activities from the background.
#[derive(Clone, Debug, Default, PartialEq, Eq)]
pub struct BindServiceLockedReport {
    /// The intent's package.
    pub intent_package: String,
    /// The bind flags, as the record holds them; the atom's writer casts them to the
    /// type of its field.
    pub flags: i64,
    /// The calling package.
    pub calling_package: String,
    /// The intent's action.
    pub intent_action: String,
    /// The package of the intent's component.
    pub intent_component_name_package: String,
    /// The class of the intent's component.
    pub intent_component_name_class: String,
}

/// What to do about a binding with the right to start activities from the background.
#[derive(Clone, Debug, Default, PartialEq, Eq)]
pub struct BackgroundStartBinding {
    /// The report to write, if any.
    pub report: Option<BindServiceLockedReport>,
    /// The package whose uid is reported as the binder's.
    pub binder_package: String,
    /// The package whose uid is reported as the bindee's.
    pub bindee_package: String,
}

/// Reports services bound with the right to start activities from the background.
#[derive(Clone, Copy, Debug, Default, PartialEq, Eq)]
pub struct BindServiceLockedHandler {}

/// The text of the five strings of a `bindServiceLocked` record, read in order: the
/// intent's package, action, component package, component class, and the caller.
pub open spec fn bind_texts(data: BindServiceLocked) -> Result<
    (Seq<char>, Seq<char>, Seq<char>, Seq<char>, Seq<char>),
    HandlerError,
> {
    match c_str_text(data.intent_package@) {
        Err(e) => Err(HandlerError::CStr(e)),
        Ok(p) => match c_str_text(data.intent_action@) {
            Err(e) => Err(HandlerError::CStr(e)),
            Ok(a) => match c_str_text(data.intent_component_name_package@) {
                Err(e) => Err(HandlerError::CStr(e)),
                Ok(cp) => match c_str_text(data.intent_component_name_class@) {
                    Err(e) => Err(HandlerError::CStr(e)),
                    Ok(cc) => match c_str_text(data.calling_package@) {
                        Err(e) => Err(HandlerError::CStr(e)),
                        Ok(k) => Ok((p, a, cp, cc, k)),
                    },
                },
            },
        },
    }
}

/// The binding carries the right to start activities from the background.
pub open spec fn has_bal_flag(bind_flags: i64) -> bool {
    bind_flags & BIND_ALLOW_BACKGROUND_ACTIVITY_STARTS != 0
}

/// Only bit 20 (`0x00100000`, `BIND_ALLOW_BACKGROUND_ACTIVITY_STARTS`) of the bind flags
/// decides whether a binding may start activities from the background: it does exactly
/// when that bit is set, whatever the other bits.
pub proof fn lemma_bal_flag_is_bit_20(bind_flags: i64)
    ensures
        has_bal_flag(bind_flags) == ((bind_flags >> 20i64) & 1i64 == 1i64),
{
    assert((bind_flags & 0x00100000i64 != 0i64) == ((bind_flags >> 20i64) & 1i64 == 1i64))
        by (bit_vector);
}

/// Two bind flags that agree on bit 20 get the same answer: the other bits, and the
/// size of the number, do not matter.
pub proof fn lemma_bal_flag_ignores_other_bits(a: i64, b: i64)
    requires
        a & 0x00100000i64 == b & 0x00100000i64,
    ensures
        has_bal_flag(a) == has_bal_flag(b),
{
}

impl BindServiceLockedHandler {
    /// The path of the ring buffer this handler reads.
    pub const MAP_PATH: &'static str =
        "/sys/fs/bpf/uprobestats/map_DisruptiveApp_BindServiceLocked_output_buf";

    /// What to do about a binding: nothing unless it carries the right to start
    /// activities from the background; then a report (except on user builds), and the
    /// uids of the caller and of the bound package (the intent's package, or its
    /// component's when the intent names none).
    pub fn on_item(&mut self, data: &BindServiceLocked, is_user_build: bool) -> (r: Result<
        Option<BackgroundStartBinding>,
        HandlerError,
    >)
        ensures
            match bind_texts(*data) {
                Err(e) => r == Err::<Option<BackgroundStartBinding>, HandlerError>(e),
                Ok((p, a, cp, cc, k)) => if !has_bal_flag(data.bind_flags) {
                    r == Ok::<Option<BackgroundStartBinding>, HandlerError>(None)
                } else {
                    r matches Ok(Some(b)) && b.binder_package@ == k && b.bindee_package@ == (
                    if p.len() == 0 {
                        cp
                    } else {
                        p
                    }) && (is_user_build ==> b.report is None) && (!is_user_build ==> (
                    b.report matches Some(rep) && rep.intent_package@ == p && rep.flags
                        == data.bind_flags && rep.calling_package@ == k
                        && rep.intent_action@ == a && rep.intent_component_name_package@ == cp
                        && rep.intent_component_name_class@ == cc))
                },
            },
    {
        let intent_package = match field_text(data.intent_package.as_slice()) {
            Err(e) => return Err(e),
            Ok(s) => s,
        };
        let intent_action = match field_text(data.intent_action.as_slice()) {
            Err(e) => return Err(e),
            Ok(s) => s,
        };
        let intent_component_name_package = match field_text(
            data.intent_component_name_package.as_slice(),
        ) {
            Err(e) => return Err(e),
            Ok(s) => s,
        };
        let intent_component_name_class = match field_text(
            data.intent_component_name_class.as_slice(),
        ) {
            Err(e) => return Err(e),
            Ok(s) => s,
        };
        let calling_package = match field_text(data.calling_package.as_slice()) {
            Err(e) => return Err(e),
            Ok(s) => s,
        };
        if data.bind_flags & BIND_ALLOW_BACKGROUND_ACTIVITY_STARTS == 0 {
            return Ok(None);
        }
        let bindee_package = if intent_package.as_str().is_empty() {
            intent_component_name_package.clone()
        } else {
            intent_package.clone()
        };
        let binder_package = calling_package.clone();
        let report = if is_user_build {
            None
        } else {
            Some(
                BindServiceLockedReport {
                    intent_package,
                    flags: data.bind_flags,
                    calling_package,
                    intent_action,
                    intent_component_name_package,
                    intent_component_name_class,
                },
            )
        };
        Ok(Some(BackgroundStartBinding { report, binder_package, bindee_package }))
    }
}

} // verus!
