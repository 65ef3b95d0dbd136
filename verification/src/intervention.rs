//! State labels, intervention records, and the relabelling that follows a
//! user's answer to a pop-up or a streak check.
use vstd::prelude::*;
use crate::models::{IdleFocusedPackage, UpdateIntervention};
use crate::table_structs::Interventions;

verus! {

/// Windows relabelled after an answer to an intervention pop-up.
pub const INTERVENTION_RELABEL_WINDOWS: i32 = 3;

/// The state named by a class index of the classifier.
pub open spec fn class_label(class_index: i64) -> Seq<char> {
    if class_index == 0 {
        "Focused"@
    } else if class_index == 1 {
        "At Risk"@
    } else if class_index == 2 {
        "Procrastinating"@
    } else if class_index == 3 {
        "Idle"@
    } else {
        "Unknown"@
    }
}

/// Names the state predicted as class `class_index`.
pub fn label_for_class(class_index: i64) -> (r: String)
    ensures
        r@ == class_label(class_index),
{
    if class_index == 0 {
        "Focused".to_string()
    } else if class_index == 1 {
        "At Risk".to_string()
    } else if class_index == 2 {
        "Procrastinating".to_string()
    } else if class_index == 3 {
        "Idle".to_string()
    } else {
        "Unknown".to_string()
    }
}

/// The four classes name four different states, none of them "Unknown".
pub proof fn lemma_class_labels_distinct(a: i64, b: i64)
    requires
        0 <= a < 4,
        0 <= b < 4,
        a != b,
    ensures
        class_label(a) != class_label(b),
        class_label(a) != "Unknown"@,
{
    reveal_strlit("Focused");
    reveal_strlit("At Risk");
    reveal_strlit("Procrastinating");
    reveal_strlit("Idle");
    reveal_strlit("Unknown");
    assert("Unknown"@[0] == 'U');
    assert(class_label(a)[0] != class_label(b)[0]);
    assert(class_label(a)[0] != "Unknown"@[0]);
}

/// The intervention row written when three risk windows raise a pop-up.
pub fn popup_intervention(predictions_id: i64, timestamp: i64, prediction_label: String) -> (r: Interventions)
    ensures
        r.predictions_id == predictions_id,
        r.timestamp == timestamp,
        r.intervention_type@ == "PopUp"@,
        r.prediction_label == prediction_label,
        r.user_label is None,
        !r.dismissed,
{
    Interventions {
        predictions_id,
        timestamp,
        intervention_type: "PopUp".to_string(),
        prediction_label,
        user_label: None,
        dismissed: false,
    }
}

/// The intervention row written when the user reports a state by hand: it
/// belongs to no prediction and carries the user's label as both labels.
pub fn manual_intervention(label: String, timestamp: i64) -> (r: Interventions)
    ensures
        r.predictions_id == 0,
        r.timestamp == timestamp,
        r.intervention_type@ == "ManualCorrection"@,
        r.prediction_label@ == label@,
        r.user_label matches Some(u) && u@ == label@,
        !r.dismissed,
{
    Interventions {
        predictions_id: 0,
        timestamp,
        intervention_type: "ManualCorrection".to_string(),
        prediction_label: label.clone(),
        user_label: Some(label),
        dismissed: false,
    }
}

/// Marks the predictions of the last `streak_windows` windows up to `timestamp` as corrected.
#[derive(Debug, Clone, Copy, PartialEq, Eq)]
pub struct CorrectionMark {
    pub timestamp: i64,
    pub streak_windows: i64,
}

/// The database updates that follow an answer.
#[derive(Debug, Clone, PartialEq, Eq)]
pub struct LabelUpdatePlan {
    /// Predictions to mark as corrected, if any.
    pub mark_corrected: Option<CorrectionMark>,
    /// Truth labels to write on the feature windows, if any.
    pub relabel: Option<IdleFocusedPackage>,
}

/// What an answer to an intervention pop-up changes: unless the pop-up was
/// dismissed, the last three windows get the user's label (over existing
/// labels when it differs from the prediction), and the predictions are
/// marked corrected when it differs.
pub open spec fn intervention_update_plan(u: UpdateIntervention, p: LabelUpdatePlan) -> bool {
    let differs = u.user_label@ != u.predicted_label@;
    &&& p.mark_corrected == if !u.dismissed && differs {
        Some(CorrectionMark { timestamp: u.timestamp, streak_windows: INTERVENTION_RELABEL_WINDOWS as i64 })
    } else {
        None
    }
    &&& if u.dismissed {
        p.relabel is None
    } else {
        p.relabel matches Some(r) && r.timestamp == u.timestamp && r.streak_windows == INTERVENTION_RELABEL_WINDOWS
            && r.label@ == u.user_label@ && r.overwrite == differs
    }
}

/// Plans the updates that follow an answer to an intervention pop-up.
pub fn plan_intervention_update(u: &UpdateIntervention) -> (p: LabelUpdatePlan)
    ensures
        intervention_update_plan(*u, p),
{
    let differs = !(u.user_label == u.predicted_label);
    if u.dismissed {
        return LabelUpdatePlan { mark_corrected: None, relabel: None };
    }
    let relabel = IdleFocusedPackage {
        timestamp: u.timestamp,
        streak_windows: INTERVENTION_RELABEL_WINDOWS,
        label: u.user_label.clone(),
        overwrite: differs,
    };
    let mark_corrected = if differs {
        Some(CorrectionMark { timestamp: u.timestamp, streak_windows: INTERVENTION_RELABEL_WINDOWS as i64 })
    } else {
        None
    };
    LabelUpdatePlan { mark_corrected, relabel: Some(relabel) }
}

/// Plans the updates that follow a confirmed focus or idle streak: the
/// windows are always relabelled, and their predictions are marked corrected
/// when the confirmation overwrites them.
pub fn plan_label_streak(pkg: &IdleFocusedPackage) -> (p: LabelUpdatePlan)
    ensures
        p.mark_corrected == if pkg.overwrite {
            Some(CorrectionMark { timestamp: pkg.timestamp, streak_windows: pkg.streak_windows as i64 })
        } else {
            None
        },
        p.relabel == Some(*pkg),
{
    let mark_corrected = if pkg.overwrite {
        Some(CorrectionMark { timestamp: pkg.timestamp, streak_windows: pkg.streak_windows as i64 })
    } else {
        None
    };
    let relabel = IdleFocusedPackage {
        timestamp: pkg.timestamp,
        streak_windows: pkg.streak_windows,
        label: pkg.label.clone(),
        overwrite: pkg.overwrite,
    };
    LabelUpdatePlan { mark_corrected, relabel: Some(relabel) }
}

/// Whether an intervention is still held back: less than `cooldown_minutes`
/// minutes have passed since the last one.
pub fn cooldown_active(seconds_since_last: u64, cooldown_minutes: u64) -> (r: bool)
    requires
        cooldown_minutes * 60 <= u64::MAX,
    ensures
        r == (seconds_since_last < cooldown_minutes * 60),
{
    seconds_since_last < cooldown_minutes * 60
}

} // verus!
