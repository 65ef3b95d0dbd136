use client_lib::features::{extract_feature_counts, window_arithmetic_fits_exec, EventSample, FEATURE_WINDOW_SECONDS};

fn make_key_event(timestamp: i64, key: &str) -> EventSample {
    EventSample {
        timestamp,
        event_action: "KeyPress".to_string(),
        key_code: Some(key.to_string()),
        wheel_y: None,
        active_window: "TestApp".to_string(),
    }
}

fn make_mouse_event(timestamp: i64) -> EventSample {
    EventSample {
        timestamp,
        event_action: "MouseMove".to_string(),
        key_code: None,
        wheel_y: None,
        active_window: "TestApp".to_string(),
    }
}

fn ratio(count: usize) -> f64 {
    count as f64 / FEATURE_WINDOW_SECONDS as f64
}

#[test]
fn test_empty_events_gives_full_idle() {
    let counts = extract_feature_counts(&vec![], 0, 60);
    assert_eq!(counts.idle_seconds as f64 / 60.0, 1.0, "Empty event window should be fully idle");
    assert_eq!(ratio(counts.key_presses), 0.0);
    assert!(counts.mouse_moves.is_empty());
    assert_eq!(counts.repeated_key_pairs, 0);
}

#[test]
fn test_typing_speed_calculation() {
    // 60 keypresses over a 60-second window -> speed = 1.0
    let events: Vec<EventSample> = (0..60).map(|i| make_key_event(i, "a")).collect();
    let counts = extract_feature_counts(&events, 0, 60);
    let typing_speed = ratio(counts.key_presses);
    assert!(
        (typing_speed - 1.0).abs() < 0.001,
        "60 keypresses / 60s should give typing_speed ~1.0, got {}",
        typing_speed
    );
}

#[test]
fn test_repetitive_key_ratio_all_same_key() {
    let events: Vec<EventSample> = (0..10).map(|i| make_key_event(i, "a")).collect();
    let counts = extract_feature_counts(&events, 0, 60);
    let repetitive_key_ratio = counts.repeated_key_pairs as f64 / counts.key_presses as f64;
    assert!(
        repetitive_key_ratio > 0.8,
        "All-same keypresses should give high repetitive ratio, got {}",
        repetitive_key_ratio
    );
    assert_eq!(counts.repeated_key_pairs, 9);
    assert_eq!(counts.key_presses, 10);
}

// The mouse path over the window: the distances between consecutive
// mouse-move positions that the counts list, divided by the window's length.
fn mouse_velocity(positions: &[(f64, f64)], moves: &[usize]) -> f64 {
    let dist: f64 = moves
        .windows(2)
        .map(|w| {
            let (ax, ay) = positions[w[0]];
            let (bx, by) = positions[w[1]];
            ((bx - ax).powi(2) + (by - ay).powi(2)).sqrt()
        })
        .sum();
    dist / FEATURE_WINDOW_SECONDS as f64
}

#[test]
fn test_mouse_velocity_stationary() {
    // Mouse not moving -> velocity should be 0
    let events: Vec<EventSample> = (0..5).map(|i| make_mouse_event(i * 10)).collect();
    let positions = vec![(100.0, 100.0); 5];
    let counts = extract_feature_counts(&events, 0, 60);
    assert_eq!(counts.mouse_moves, vec![0, 1, 2, 3, 4]);
    assert_eq!(mouse_velocity(&positions, &counts.mouse_moves), 0.0, "Stationary mouse should give velocity 0");
}

#[test]
fn test_mouse_velocity_moving() {
    // Mouse moves 300px right over the window
    let events = vec![make_mouse_event(0), make_mouse_event(30)];
    let positions = vec![(0.0, 0.0), (300.0, 0.0)];
    let counts = extract_feature_counts(&events, 0, 60);
    assert_eq!(counts.mouse_moves, vec![0, 1]);
    // Distance = 300, velocity = 300/60 = 5.0
    let velocity = mouse_velocity(&positions, &counts.mouse_moves);
    assert!((velocity - 5.0).abs() < 0.001, "Expected mouse_velocity ~5.0, got {}", velocity);
}

#[test]
fn test_idle_ratio_capped_at_one() {
    let events = vec![make_key_event(30, "a")];
    let counts = extract_feature_counts(&events, 0, 60);
    let idle_ratio = counts.idle_seconds as f64 / 60.0;
    assert!(idle_ratio <= 1.0, "Idle ratio must never exceed 1.0, got {}", idle_ratio);
    assert_eq!(counts.idle_seconds, 60);
}

#[test]
fn idle_time_is_capped_even_for_unsorted_events() {
    // 50 idle before the first event, none between (backwards), 50 after the last: capped at 60
    let events = vec![make_key_event(50, "a"), make_key_event(10, "b")];
    let counts = extract_feature_counts(&events, 0, 60);
    assert_eq!(counts.idle_seconds, 60);
}

#[test]
fn idle_counts_only_gaps_longer_than_two_seconds() {
    // gaps: start->10 (10 idle), 10->12 (2, not idle), 12->20 (8 idle), 20->end 58 (38 idle) = 56
    let events = vec![make_key_event(10, "a"), make_key_event(12, "b"), make_key_event(20, "c")];
    let counts = extract_feature_counts(&events, 0, 58);
    assert_eq!(counts.idle_seconds, 56);
}

#[test]
fn repeated_keys_need_equal_adjacent_key_presses() {
    let mut events = vec![make_key_event(1, "a"), make_mouse_event(2), make_key_event(3, "a"), make_key_event(4, "b")];
    events.push(EventSample { key_code: None, ..make_key_event(5, "b") });
    let counts = extract_feature_counts(&events, 0, 60);
    assert_eq!(counts.key_presses, 4);
    // (a, a) across the mouse move counts; (a, b) and (b, none) do not
    assert_eq!(counts.repeated_key_pairs, 1);
    assert_eq!(counts.mouse_moves, vec![1]);
}

#[test]
fn window_switches_ignore_pointer_events() {
    let key_in = |t: i64, app: &str| EventSample { active_window: app.to_string(), ..make_key_event(t, "x") };
    let events = vec![
        key_in(1, "Editor"),
        EventSample { active_window: "Browser".to_string(), ..make_mouse_event(2) },
        key_in(3, "Editor"),
        key_in(4, "Browser"),
        EventSample {
            timestamp: 5,
            event_action: "WheelScroll".to_string(),
            key_code: None,
            wheel_y: Some(-3),
            active_window: String::new(),
        },
        key_in(6, "Editor"),
    ];
    let counts = extract_feature_counts(&events, 0, 60);
    assert_eq!(counts.window_switches, 2);
    assert_eq!(counts.scroll_total, 3);
    assert_eq!(counts.mouse_moves, vec![1]);
}

#[test]
fn scroll_total_sums_absolute_wheel_movement() {
    let wheel = |t: i64, dy: Option<i64>| EventSample {
        timestamp: t,
        event_action: "WheelScroll".to_string(),
        key_code: None,
        wheel_y: dy,
        active_window: String::new(),
    };
    let events = vec![wheel(1, Some(5)), wheel(2, Some(-7)), wheel(3, None), wheel(4, Some(i64::MIN + 1))];
    assert!(window_arithmetic_fits_exec(&events, 0, 60));
    let counts = extract_feature_counts(&events, 0, 60);
    assert_eq!(counts.scroll_total, 12 + (1u128 << 63) - 1);
}

#[test]
fn overflowing_window_arithmetic_is_detected() {
    let wheel = EventSample {
        timestamp: 1,
        event_action: "WheelScroll".to_string(),
        key_code: None,
        wheel_y: Some(i64::MIN),
        active_window: String::new(),
    };
    assert!(!window_arithmetic_fits_exec(&vec![wheel], 0, 60));
    assert!(!window_arithmetic_fits_exec(&vec![make_key_event(i64::MAX, "a")], -1, 60));
    assert!(!window_arithmetic_fits_exec(&vec![make_key_event(i64::MIN, "a"), make_key_event(1, "a")], i64::MIN, 60));
    assert!(window_arithmetic_fits_exec(&vec![make_key_event(5, "a")], 0, 60));
}
