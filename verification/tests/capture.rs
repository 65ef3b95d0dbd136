use client_lib::capture::{describe_event, CapturePlan, CaptureState, EventKind, WindowChoice};

#[test]
fn nothing_is_recorded_while_stopped_or_on_break() {
    let mut state = CaptureState::new();
    let key = EventKind::KeyPress { key: "KeyA".to_string() };
    assert_eq!(state.on_event(false, false, Some(100), &key), CapturePlan::Drop);
    assert_eq!(state.last_on_break, None);
    assert_eq!(state.on_event(true, true, Some(100), &key), CapturePlan::Drop);
    assert_eq!(state.last_on_break, Some(true));
}

#[test]
fn unusable_times_are_dropped() {
    let mut state = CaptureState::new();
    let key = EventKind::KeyPress { key: "KeyA".to_string() };
    assert_eq!(state.on_event(true, false, None, &key), CapturePlan::Drop);
    assert_eq!(state.on_event(true, false, Some(u64::MAX), &key), CapturePlan::Drop);
    // within i64 but far beyond the dates chrono represents
    assert_eq!(state.on_event(true, false, Some(i64::MAX as u64), &key), CapturePlan::Drop);
}

#[test]
fn last_second_chrono_represents_is_recorded() {
    let mut state = CaptureState::new();
    let key = EventKind::KeyPress { key: "KeyA".to_string() };
    assert!(matches!(
        state.on_event(true, false, Some(8_210_266_876_799), &key),
        CapturePlan::Record { timestamp: 8_210_266_876_799, .. }
    ));
    assert_eq!(state.on_event(true, false, Some(8_210_266_876_800), &key), CapturePlan::Drop);
}

#[test]
fn mouse_move_gets_window_of_last_key_event() {
    let mut state = CaptureState::new();
    // a mouse move before any window was read is attributed to no window
    match state.on_event(true, false, Some(5), &EventKind::MouseMove) {
        CapturePlan::Record { window, .. } => assert_eq!(window, WindowChoice::Known(String::new())),
        CapturePlan::Drop => panic!("mouse move should be recorded"),
    }
    let plan = state.on_event(true, false, Some(6), &EventKind::KeyPress { key: "KeyB".to_string() });
    assert!(matches!(plan, CapturePlan::Record { window: WindowChoice::Query, .. }));
    let name = state.remember_window(Some("Terminal".to_string()));
    assert_eq!(name, "Terminal");
    // an event while on a break leaves the remembered window alone
    assert_eq!(state.on_event(true, true, Some(7), &EventKind::MouseMove), CapturePlan::Drop);
    match state.on_event(true, false, Some(8), &EventKind::MouseMove) {
        CapturePlan::Record { window, .. } => assert_eq!(window, WindowChoice::Known("Terminal".to_string())),
        CapturePlan::Drop => panic!("mouse move should be recorded"),
    }
}

#[test]
fn key_press_is_described_and_reads_the_window() {
    let mut state = CaptureState::new();
    let plan = state.on_event(true, false, Some(1_700_000_000), &EventKind::KeyPress { key: "KeyA".to_string() });
    match plan {
        CapturePlan::Record { timestamp, fields, window } => {
            assert_eq!(timestamp, 1_700_000_000);
            assert_eq!(fields.event_type, "keyboard");
            assert_eq!(fields.event_action, "KeyPress");
            assert_eq!(fields.key_code, Some("KeyA".to_string()));
            assert_eq!(fields.button, None);
            assert_eq!(window, WindowChoice::Query);
        }
        CapturePlan::Drop => panic!("key press should be recorded"),
    }
}

#[test]
fn pointer_events_reuse_or_skip_the_window() {
    let mut state = CaptureState::new();
    assert_eq!(state.remember_window(Some("Editor".to_string())), "Editor");
    match state.on_event(true, false, Some(10), &EventKind::MouseMove) {
        CapturePlan::Record { window, fields, .. } => {
            assert_eq!(window, WindowChoice::Known("Editor".to_string()));
            assert_eq!(fields.event_type, "Mouse");
            assert_eq!(fields.event_action, "MouseMove");
        }
        CapturePlan::Drop => panic!("mouse move should be recorded"),
    }
    match state.on_event(true, false, Some(10), &EventKind::Wheel { delta_x: 1, delta_y: -2 }) {
        CapturePlan::Record { window, fields, .. } => {
            assert_eq!(window, WindowChoice::Known(String::new()));
            assert_eq!(fields.event_action, "WheelScroll");
            assert_eq!(fields.wheel_x, Some(1));
            assert_eq!(fields.wheel_y, Some(-2));
        }
        CapturePlan::Drop => panic!("wheel should be recorded"),
    }
}

#[test]
fn unreadable_window_is_named_unknown_and_cached() {
    let mut state = CaptureState::new();
    assert_eq!(state.remember_window(None), "Unknown window");
    assert_eq!(state.last_window, "Unknown window");
}

#[test]
fn buttons_are_described() {
    let f = describe_event(&EventKind::ButtonRelease { button: "Left".to_string() });
    assert_eq!(f.event_type, "Mouse");
    assert_eq!(f.event_action, "ButtonRelease");
    assert_eq!(f.button, Some("Left".to_string()));
    let f = describe_event(&EventKind::KeyRelease { key: "Space".to_string() });
    assert_eq!(f.event_action, "KeyRelease");
    assert_eq!(f.key_code, Some("Space".to_string()));
}
