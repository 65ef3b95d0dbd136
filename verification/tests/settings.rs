use client_lib::settings::{focused_streak_threshold, streak_setting_text, streak_settings_from, StreakSettings};

#[test]
fn missing_or_invalid_setting_gives_default() {
    assert_eq!(streak_settings_from(None).focused_streak_window, 15);
    assert_eq!(streak_settings_from(Some("abc".to_string())).focused_streak_window, 15);
    assert_eq!(streak_settings_from(Some(" 20".to_string())).focused_streak_window, 15);
    assert_eq!(streak_settings_from(Some(String::new())).focused_streak_window, 15);
    assert_eq!(focused_streak_threshold(None), 15);
}

#[test]
fn stored_setting_is_parsed() {
    assert_eq!(streak_settings_from(Some("20".to_string())).focused_streak_window, 20);
    assert_eq!(streak_settings_from(Some("+8".to_string())).focused_streak_window, 8);
    assert_eq!(streak_settings_from(Some("-3".to_string())).focused_streak_window, -3);
    assert_eq!(focused_streak_threshold(Some("25".to_string())), 25);
}

#[test]
fn threshold_out_of_i32_range_gives_default() {
    let big = "4294967296".to_string();
    assert_eq!(focused_streak_threshold(Some(big.clone())), 15);
    assert_eq!(streak_settings_from(Some(big)).focused_streak_window, 4_294_967_296);
}

#[test]
fn saved_setting_reads_back() {
    for v in [0i64, 7, -12, 15, i64::MAX, i64::MIN] {
        let text = streak_setting_text(&StreakSettings { focused_streak_window: v });
        assert_eq!(streak_settings_from(Some(text)).focused_streak_window, v);
    }
    assert_eq!(streak_setting_text(&StreakSettings { focused_streak_window: -42 }), "-42");
}
