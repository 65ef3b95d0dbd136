use client_lib::jitai::{pick_activity, pick_with, prepare_suggestion, prepare_suggestion_now, suggestion_pools, ActivityPick};
use client_lib::table_structs::UserPreferences;

fn pref(id: i64, name: &str, times_suggested: i64, last_suggested: i64) -> UserPreferences {
    UserPreferences {
        id: Some(id),
        activity_name: name.to_string(),
        min_duration_minutes: 5,
        max_duration_minutes: 10,
        times_suggested,
        times_completed: 0,
        last_suggested,
    }
}

#[test]
fn untried_activities_come_first_without_the_last_suggested() {
    let prefs = vec![pref(1, "Walking", 0, 0), pref(2, "Reading", 3, 900), pref(3, "Gaming", 0, 0), pref(4, "Youtube", 0, 0)];
    let (untried, fallback) = suggestion_pools(&prefs);
    assert_eq!(untried, vec![0, 2, 3]);
    assert_eq!(fallback, vec![0, 2, 3]);
    for _ in 0..20 {
        match pick_activity(&prefs).0 {
            ActivityPick::Chosen(k) => assert!(untried.contains(&k)),
            other => panic!("expected an untried activity, got {:?}", other),
        }
    }
}

#[test]
fn last_suggested_untried_activity_is_skipped_when_others_remain() {
    // ties on last_suggested go to the later activity
    let prefs = vec![pref(1, "Walking", 0, 50), pref(2, "Reading", 0, 50)];
    let (untried, fallback) = suggestion_pools(&prefs);
    assert_eq!(untried, vec![0]);
    assert_eq!(fallback, vec![0]);
    assert_eq!(pick_activity(&prefs).0, ActivityPick::Chosen(0));
}

#[test]
fn single_untried_activity_is_kept_even_if_last() {
    let prefs = vec![pref(1, "Walking", 2, 10), pref(2, "Reading", 0, 20)];
    let (untried, fallback) = suggestion_pools(&prefs);
    assert_eq!(untried, vec![1]);
    assert_eq!(fallback, vec![0]);
}

#[test]
fn tried_activities_fall_back_to_bandit_choice() {
    let prefs = vec![pref(1, "Walking", 2, 10), pref(2, "Reading", 4, 30), pref(3, "Gaming", 1, 20)];
    for _ in 0..50 {
        match pick_activity(&prefs).0 {
            ActivityPick::Chosen(k) => assert!(k == 0 || k == 2),
            ActivityPick::BestScoredAmong(pool) => assert_eq!(pool, vec![0, 2]),
        }
    }
}

#[test]
fn no_preferences_leave_both_pools_empty() {
    let (untried, fallback) = suggestion_pools(&vec![]);
    assert!(untried.is_empty());
    assert!(fallback.is_empty());
}

#[test]
fn exploit_and_explore_both_occur_once_all_are_tried() {
    let prefs = vec![pref(1, "Walking", 2, 10), pref(2, "Reading", 4, 30), pref(3, "Gaming", 1, 20)];
    let mut exploited = 0;
    for _ in 0..400 {
        if let ActivityPick::BestScoredAmong(_) = pick_activity(&prefs).0 {
            exploited += 1;
        }
    }
    // seven in ten on average; far from never and from always
    assert!(exploited > 200 && exploited < 360);
}

#[test]
fn suggestion_counts_one_more_and_draws_duration_in_range() {
    let chosen = pref(9, "Crochet", 4, 0);
    let out = prepare_suggestion(&chosen, 1_700_000_123);
    assert_eq!(out.update.preference_id, 9);
    assert_eq!(out.update.times_suggested, 5);
    assert_eq!(out.update.last_suggested, 1_700_000_123);
    assert_eq!(out.suggestion.preference_id, 9);
    assert_eq!(out.suggestion.activity, "Crochet");
    assert!((5..=10).contains(&out.suggestion.random_duration));
    // the duration is drawn over the whole range, not pinned to one end
    let mut seen = std::collections::HashSet::new();
    for _ in 0..300 {
        seen.insert(prepare_suggestion(&chosen, 0).suggestion.random_duration);
    }
    assert!(seen.contains(&5) && seen.contains(&10));

    let fixed = UserPreferences { min_duration_minutes: 7, max_duration_minutes: 7, ..pref(1, "Walking", 0, 0) };
    assert_eq!(prepare_suggestion(&fixed, 0).suggestion.random_duration, 7);
}

#[test]
fn suggestion_now_reads_the_clock() {
    let out = prepare_suggestion_now(&pref(3, "Reading", 0, 0));
    assert!(out.update.last_suggested > 1_600_000_000);
    assert_eq!(out.update.times_suggested, 1);
}

#[test]
fn pick_with_follows_the_draws() {
    let tried = vec![pref(1, "Walking", 2, 10), pref(2, "Reading", 4, 30), pref(3, "Gaming", 1, 20)];
    assert_eq!(pick_with(&tried, true, 0), ActivityPick::BestScoredAmong(vec![0, 2]));
    assert_eq!(pick_with(&tried, true, 2), ActivityPick::BestScoredAmong(vec![0, 2]));
    assert_eq!(pick_with(&tried, false, 2), ActivityPick::Chosen(2));
    let untried = vec![pref(1, "Walking", 0, 0), pref(2, "Reading", 1, 5)];
    // never-suggested activities come first whatever the exploit draw says
    assert_eq!(pick_with(&untried, true, 0), ActivityPick::Chosen(0));
}
