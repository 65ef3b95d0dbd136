use std::time::{Duration, SystemTime, UNIX_EPOCH};

use client_lib::extractor::{ExtractorState, WindowAlert};
use client_lib::intervention::{
    cooldown_active, label_for_class, manual_intervention, plan_intervention_update, plan_label_streak,
    popup_intervention, CorrectionMark,
};
use client_lib::models::{IdleFocusedPackage, UpdateIntervention};

#[test]
fn test_procrastination_threshold() {
    let recent_states = vec!["Procrastinating", "Procrastinating", "Procrastinating", "Procrastinating", "Procrastinating"];
    let mut state = ExtractorState::new(15, 10);
    let mut should_trigger = false;
    let mut window_end = 1_700_000_000;
    for recent in &recent_states {
        window_end += 60;
        if state.record_prediction(recent, false, window_end) == WindowAlert::Intervention {
            should_trigger = true;
        }
    }

    assert_eq!(should_trigger, true, "5 consecutive procrastination states must trigger intervention");
}

#[test]
fn test_cooldown_respect() {
    let cooldown_minutes = 10;
    let last_intervention_time = SystemTime::now() - Duration::from_secs(2 * 60);
    let secs = |t: SystemTime| t.duration_since(UNIX_EPOCH).unwrap().as_secs() as i64;

    // the prediction loop raised a pop-up for the window ending two minutes ago
    let mut state = ExtractorState::new(15, cooldown_minutes);
    let last = secs(last_intervention_time);
    state.record_prediction("At Risk", true, last - 120);
    state.record_prediction("At Risk", true, last - 60);
    assert_eq!(state.record_prediction("At Risk", true, last), WindowAlert::Intervention);

    // a full streak completing now would trigger again, but the cooldown holds it back
    let now = secs(SystemTime::now());
    let time_since_last = SystemTime::now().duration_since(last_intervention_time).unwrap();
    let is_cooldown_active = cooldown_active(time_since_last.as_secs(), cooldown_minutes);
    assert!(is_cooldown_active);
    state.record_prediction("At Risk", true, now);
    state.record_prediction("At Risk", true, now);
    let can_trigger = state.record_prediction("At Risk", true, now) == WindowAlert::Intervention;

    assert_eq!(can_trigger, false, "System must not trigger if 10-minute cooldown has not passed");
}

#[test]
fn test_parse_inference_output() {
    let probabilities = vec![0.05, 0.10, 0.80, 0.05];

    let mut max_index = 0;
    let mut max_val = probabilities[0];
    for (i, &val) in probabilities.iter().enumerate() {
        if val > max_val {
            max_val = val;
            max_index = i;
        }
    }

    let predicted_label = label_for_class(max_index as i64);

    assert_eq!(predicted_label, "Procrastinating", "Should correctly map index 2 to Procrastinating");
}

#[test]
fn class_labels_cover_four_states_and_unknown() {
    assert_eq!(label_for_class(0), "Focused");
    assert_eq!(label_for_class(1), "At Risk");
    assert_eq!(label_for_class(3), "Idle");
    assert_eq!(label_for_class(4), "Unknown");
    assert_eq!(label_for_class(-1), "Unknown");
}

#[test]
fn cooldown_passes_after_full_period() {
    assert!(cooldown_active(599, 10));
    assert!(!cooldown_active(600, 10));
    assert!(!cooldown_active(0, 0));
}

fn answer(user_label: &str, predicted_label: &str, dismissed: bool) -> UpdateIntervention {
    UpdateIntervention {
        timestamp: 1_700_000_000,
        intervention_id: 7,
        user_label: user_label.to_string(),
        dismissed,
        predicted_label: predicted_label.to_string(),
    }
}

#[test]
fn corrected_answer_marks_and_overwrites_three_windows() {
    let plan = plan_intervention_update(&answer("Focused", "Procrastinating", false));
    assert_eq!(plan.mark_corrected, Some(CorrectionMark { timestamp: 1_700_000_000, streak_windows: 3 }));
    assert_eq!(
        plan.relabel,
        Some(IdleFocusedPackage { timestamp: 1_700_000_000, streak_windows: 3, label: "Focused".to_string(), overwrite: true })
    );
}

#[test]
fn confirming_answer_relabels_without_marking() {
    let plan = plan_intervention_update(&answer("At Risk", "At Risk", false));
    assert_eq!(plan.mark_corrected, None);
    assert_eq!(
        plan.relabel,
        Some(IdleFocusedPackage { timestamp: 1_700_000_000, streak_windows: 3, label: "At Risk".to_string(), overwrite: false })
    );
}

#[test]
fn dismissed_answer_changes_nothing() {
    let plan = plan_intervention_update(&answer("Focused", "Procrastinating", true));
    assert_eq!(plan.mark_corrected, None);
    assert_eq!(plan.relabel, None);
}

#[test]
fn streak_confirmation_marks_only_when_overwriting() {
    let pkg = IdleFocusedPackage { timestamp: 100, streak_windows: 15, label: "Focused".to_string(), overwrite: true };
    let plan = plan_label_streak(&pkg);
    assert_eq!(plan.mark_corrected, Some(CorrectionMark { timestamp: 100, streak_windows: 15 }));
    assert_eq!(plan.relabel, Some(pkg.clone()));

    let keep = IdleFocusedPackage { overwrite: false, ..pkg };
    let plan = plan_label_streak(&keep);
    assert_eq!(plan.mark_corrected, None);
    assert_eq!(plan.relabel, Some(keep));
}

#[test]
fn intervention_rows() {
    let popup = popup_intervention(12, 500, "At Risk".to_string());
    assert_eq!(popup.predictions_id, 12);
    assert_eq!(popup.timestamp, 500);
    assert_eq!(popup.intervention_type, "PopUp");
    assert_eq!(popup.prediction_label, "At Risk");
    assert_eq!(popup.user_label, None);
    assert!(!popup.dismissed);

    let manual = manual_intervention("Idle".to_string(), 900);
    assert_eq!(manual.predictions_id, 0);
    assert_eq!(manual.intervention_type, "ManualCorrection");
    assert_eq!(manual.prediction_label, "Idle");
    assert_eq!(manual.user_label, Some("Idle".to_string()));
    assert!(!manual.dismissed);
}
