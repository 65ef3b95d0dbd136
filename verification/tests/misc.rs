use client_lib::activity::{activities_to_save, break_activities, preference_names};
use client_lib::analytics::{retraining_needed, since_timestamp};
use client_lib::breaks::{check_extension, end_break_record};
use client_lib::config::{CaptureConfig, InterventionConfig, MLConfig};
use client_lib::models::{EndBreak, RetrainingResult};
use client_lib::shell::{window_close_action, CloseAction};

#[test]
fn catalogue_has_ten_fresh_activities() {
    let acts = break_activities();
    assert_eq!(acts.len(), 10);
    assert_eq!(acts[0].activity_name, "Walking");
    assert_eq!((acts[2].min_duration_minutes, acts[2].max_duration_minutes), (10, 25));
    assert_eq!(acts[9].activity_name, "Scrolling reels");
    assert!(acts.iter().all(|a| a.id == Some(0) && a.times_suggested == 0 && a.times_completed == 0));
}

#[test]
fn preference_names_follow_catalogue() {
    let names = preference_names();
    assert_eq!(names.len(), 10);
    assert_eq!(names[6], "Crochet");
    assert_eq!(names[7], "Snack break");
}

#[test]
fn chosen_activities_are_saved_in_order_and_unknown_skipped() {
    let chosen = vec!["Youtube".to_string(), "Sleeping".to_string(), "Walking".to_string()];
    let saved = activities_to_save(&chosen);
    assert_eq!(saved.len(), 2);
    assert_eq!(saved[0].activity_name, "Youtube");
    assert_eq!((saved[0].min_duration_minutes, saved[0].max_duration_minutes), (10, 15));
    assert_eq!(saved[1].activity_name, "Walking");
}

#[test]
fn config_defaults() {
    let c = CaptureConfig::default();
    assert_eq!((c.keyboard_poll_interval_ms, c.mouse_poll_interval_ms, c.idle_threshold_seconds), (100, 100, 15));
    let m = MLConfig::default();
    assert_eq!((m.feature_window_seconds, m.prediction_interval_seconds), (30, 15));
    let i = InterventionConfig::default();
    assert_eq!((i.risk_prediction_threshold, i.cooldown_minutes), (3, 15));
}

#[test]
fn break_on_time_and_late() {
    assert_eq!(end_break_record(4, 1_000, 10, 1_600), EndBreak { break_session_id: 4, returned_on_time: true });
    assert_eq!(end_break_record(4, 1_000, 10, 1_601), EndBreak { break_session_id: 4, returned_on_time: false });
    assert!(end_break_record(4, 1_000, 12, 1_601).returned_on_time);
}

#[test]
fn extension_must_be_positive() {
    assert_eq!(check_extension(5), Ok(()));
    assert_eq!(check_extension(0), Err("extra_minutes must be > 0".to_string()));
    assert!(check_extension(-3).is_err());
}

#[test]
fn analytics_range_start() {
    assert_eq!(since_timestamp(1_000_000, 7), 1_000_000 - 7 * 86_400);
    assert_eq!(since_timestamp(500, 0), 500);
}

#[test]
fn retraining_needs_quarter_corrected_and_fifty_labels() {
    assert!(retraining_needed(26, 100, 50));
    assert!(!retraining_needed(25, 100, 50));
    assert!(!retraining_needed(26, 100, 49));
    assert!(!retraining_needed(0, 0, 500));
}

#[test]
fn retraining_messages() {
    let failed = RetrainingResult::failed("boom");
    assert!(!failed.success);
    assert_eq!(failed.message, "Retraining failed: boom");
    let ok = RetrainingResult::succeeded();
    assert!(ok.success);
    assert_eq!(ok.message, "Model retrained successfully and loaded. Old input events cleared.");
}

#[test]
fn closing_main_window_shuts_down_and_resets() {
    assert_eq!(window_close_action(true, "main", true), CloseAction::ShutDown { reset_state: true });
    assert_eq!(window_close_action(true, "popup", false), CloseAction::ShutDown { reset_state: false });
    assert_eq!(window_close_action(true, "popup", true), CloseAction::Ignore);
    assert_eq!(window_close_action(false, "main", true), CloseAction::Ignore);
}
