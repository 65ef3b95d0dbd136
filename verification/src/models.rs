//! Messages exchanged between the user interface, the database and the loops.
use vstd::prelude::*;

verus! {

/// The user's answer to an intervention pop-up.
#[derive(Debug, Clone, PartialEq, Eq)]
pub struct UpdateIntervention {
    pub timestamp: i64,
    pub intervention_id: i64,
    pub user_label: String,
    pub dismissed: bool,
    pub predicted_label: String,
}

/// A break activity proposed to the user.
#[derive(Debug, Clone, PartialEq, Eq)]
pub struct ActivitySuggestion {
    pub preference_id: i64,
    pub activity: String,
    pub random_duration: i64,
}

/// The bookkeeping written back to a preference when it is suggested.
#[derive(Debug, Clone, Copy, PartialEq, Eq)]
pub struct PreferenceUpdate {
    pub preference_id: i64,
    pub times_suggested: i64,
    pub last_suggested: i64,
}

/// The end of a break session.
#[derive(Debug, Clone, Copy, PartialEq, Eq)]
pub struct EndBreak {
    pub break_session_id: i64,
    pub returned_on_time: bool,
}

/// A confirmed state for the last `streak_windows` windows up to `timestamp`.
#[derive(Debug, Clone, PartialEq, Eq)]
pub struct IdleFocusedPackage {
    pub timestamp: i64,
    pub streak_windows: i32,
    pub label: String,
    pub overwrite: bool,
}

/// The outcome of a retraining run.
#[derive(Debug, Clone, PartialEq, Eq)]
pub struct RetrainingResult {
    pub success: bool,
    pub message: String,
}

impl RetrainingResult {
    /// The result reported when the retraining process failed with the given error output.
    pub fn failed(stderr: &str) -> (r: Self)
        ensures
            !r.success,
            r.message@ == "Retraining failed: "@ + stderr@,
    {
        let mut message = "Retraining failed: ".to_string();
        message.append(stderr);
        RetrainingResult { success: false, message }
    }

    /// The result reported once the retrained model is loaded and old events are cleared.
    pub fn succeeded() -> (r: Self)
        ensures
            r.success,
            r.message@ == "Model retrained successfully and loaded. Old input events cleared."@,
    {
        RetrainingResult {
            success: true,
            message: "Model retrained successfully and loaded. Old input events cleared.".to_string(),
        }
    }
}

} // verus!
