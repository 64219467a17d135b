//! The values and callbacks of the activity manager's process observation.
use vstd::prelude::*;

verus! {

/// The state of foreground activities in a process.
#[derive(Clone, Copy, Debug, PartialEq, Eq)]
pub enum ForegroundActivitiesState {
    /// The process has no foreground activities.
    NoForegroundActivities,
    /// The process has one or more foreground activities.
    HasForegroundActivities,
}

impl ForegroundActivitiesState {
    /// The platform's number for the state.
    pub open spec fn spec_value(self) -> i32 {
        match self {
            ForegroundActivitiesState::NoForegroundActivities => 0,
            ForegroundActivitiesState::HasForegroundActivities => 1,
        }
    }

    /// The platform's number for the state.
    pub fn value(self) -> (r: i32)
        ensures
            r == self.spec_value(),
    {
        match self {
            ForegroundActivitiesState::NoForegroundActivities => 0,
            ForegroundActivitiesState::HasForegroundActivities => 1,
        }
    }

    /// The state the platform reports as `state`: 1 means foreground activities, any
    /// other number none.
    pub open spec fn spec_from_raw(state: i32) -> Self {
        if state == 1 {
            ForegroundActivitiesState::HasForegroundActivities
        } else {
            ForegroundActivitiesState::NoForegroundActivities
        }
    }

    /// The state the platform reports as `state`: 1 means foreground activities, any
    /// other number none.
    pub fn from_raw(state: i32) -> (r: Self)
        ensures
            r == Self::spec_from_raw(state),
    {
        if state == 1 {
            ForegroundActivitiesState::HasForegroundActivities
        } else {
            ForegroundActivitiesState::NoForegroundActivities
        }
    }
}

/// A state reported by its number reads back as itself.
pub proof fn lemma_state_round_trip(s: ForegroundActivitiesState)
    ensures
        ForegroundActivitiesState::spec_from_raw(s.spec_value()) == s,
{
}

/// Callbacks for process state changes.
///
/// The callbacks are invoked on an arbitrary thread. Each does nothing unless an
/// implementation says otherwise.
pub trait ProcessObserverCallbacks: Send + Sync {
    /// Called when a process is started.
    fn on_process_started(
        &mut self,
        pid: i32,
        process_uid: u32,
        package_uid: u32,
        package_name: &str,
        process_name: &str,
    ) {
    }

    /// Called when the foreground activities of a process change.
    fn on_foreground_activities_changed(
        &mut self,
        pid: i32,
        uid: u32,
        state: ForegroundActivitiesState,
    ) {
    }

    /// Called when the foreground services of a process change.
    fn on_foreground_services_changed(&mut self, pid: i32, uid: u32, service_types: i32) {
    }

    /// Called when a process dies.
    fn on_process_died(&mut self, pid: i32, uid: u32) {
    }
}

} // verus!
