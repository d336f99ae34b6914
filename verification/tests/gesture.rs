use brightwheel::gesture::{
    consumes_event, is_double_click, needs_tray_hit_test, step_size, steps_from_mouse_data,
    PointerAction, PointerState, WheelAccelerator, WheelBatch, WheelEvent, MONITOR_OFF_DELAY_MS,
};
use windows_sys::Win32::UI::WindowsAndMessaging::{
    WHEEL_DELTA, WM_LBUTTONUP, WM_MOUSEMOVE, WM_MOUSEWHEEL, WM_RBUTTONUP,
};

const MILLISECOND: u64 = 1_000_000;

fn event(steps: i32, timestamp: u64) -> WheelEvent {
    WheelEvent {
        steps,
        timestamp,
        generation: 0,
    }
}

fn mouse_data(delta: i16) -> u32 {
    u32::from(u16::from_ne_bytes(delta.to_ne_bytes())) << 16
}

#[test]
fn acceleration_curve_has_explicit_boundaries() {
    let values = (1..=11).map(step_size).collect::<Vec<_>>();
    assert_eq!(values, [2, 2, 4, 4, 4, 7, 7, 7, 7, 10, 10]);
}

#[test]
fn gesture_accelerates_a_continuous_burst() {
    let start = 5_000 * MILLISECOND;
    let mut accelerator = WheelAccelerator::default();
    let adjustments = (0..10)
        .map(|index| accelerator.adjust(event(1, start + index * 20 * MILLISECOND)))
        .collect::<Vec<_>>();

    assert_eq!(adjustments, [2, 2, 4, 4, 4, 7, 7, 7, 7, 10]);
}

#[test]
fn brightwheel_accelerates_a_continuous_burst() {
    let start = 7 * MILLISECOND;
    let mut accelerator = WheelAccelerator::default();
    let adjustments: Vec<i32> = (0..10)
        .map(|index| {
            accelerator.adjust(WheelEvent {
                steps: 1,
                timestamp: start + index * 20 * MILLISECOND,
                generation: 0,
            })
        })
        .collect();

    assert_eq!(adjustments, vec![2, 2, 4, 4, 4, 7, 7, 7, 7, 10]);
}

#[test]
fn applies_each_notch_in_a_multi_step_event() {
    let mut accelerator = WheelAccelerator::default();
    assert_eq!(accelerator.adjust(event(3, 0)), 8);
}

#[test]
fn gesture_resets_after_pause_or_direction_change() {
    let start = 1_000 * MILLISECOND;
    let mut accelerator = WheelAccelerator::default();
    assert_eq!(accelerator.adjust(event(3, start)), 8);
    assert_eq!(accelerator.adjust(event(1, start + 500 * MILLISECOND)), 2);
    assert_eq!(accelerator.adjust(event(-1, start + 520 * MILLISECOND)), -2);
}

#[test]
fn brightwheel_resets_after_pause_or_direction_change() {
    let start = 0;
    let mut accelerator = WheelAccelerator::default();
    assert_eq!(
        accelerator.adjust(WheelEvent {
            steps: 3,
            timestamp: start,
            generation: 0,
        }),
        8
    );
    assert_eq!(
        accelerator.adjust(WheelEvent {
            steps: 1,
            timestamp: start + 500 * MILLISECOND,
            generation: 0,
        }),
        2
    );
    assert_eq!(
        accelerator.adjust(WheelEvent {
            steps: -1,
            timestamp: start + 520 * MILLISECOND,
            generation: 0,
        }),
        -2
    );
}

#[test]
fn a_pause_of_exactly_the_reset_interval_keeps_the_streak() {
    let mut accelerator = WheelAccelerator::new();
    assert_eq!(accelerator.adjust(event(2, 0)), 4);
    assert_eq!(accelerator.adjust(event(1, 350 * MILLISECOND)), 4);
    assert_eq!(accelerator.adjust(event(1, 700 * MILLISECOND + 1)), 2);
    accelerator.reset();
    assert_eq!(accelerator.adjust(event(1, 700 * MILLISECOND + 2)), 2);
    assert_eq!(accelerator.adjust(event(0, 700 * MILLISECOND + 3)), 0);
}

#[test]
fn converts_standard_and_high_resolution_wheel_deltas() {
    assert_eq!(steps_from_mouse_data(mouse_data(120)), 1);
    assert_eq!(steps_from_mouse_data(mouse_data(-120)), -1);
    assert_eq!(steps_from_mouse_data(mouse_data(240)), 2);
    assert_eq!(steps_from_mouse_data(mouse_data(30)), 1);
    assert_eq!(steps_from_mouse_data(mouse_data(-30)), -1);
}

#[test]
fn wheel_deltas_round_toward_zero() {
    assert_eq!(steps_from_mouse_data(mouse_data(-250)), -2);
    assert_eq!(steps_from_mouse_data(mouse_data(250)), 2);
    assert_eq!(steps_from_mouse_data(mouse_data(0) | 0xffff), 0);
    assert_eq!(steps_from_mouse_data(mouse_data(i16::MIN)), -273);
}

#[test]
fn recognizes_double_clicks_across_timestamp_wraparound() {
    assert!(!is_double_click(0, 100, 500));
    assert!(is_double_click(100, 450, 500));
    assert!(!is_double_click(100, 601, 500));
    assert!(is_double_click(u32::MAX - 10, 5, 20));
}

#[test]
fn avoids_shell_hit_tests_for_unrelated_and_idle_mouse_events() {
    assert!(!needs_tray_hit_test(WM_MOUSEMOVE, false, false));
    assert!(needs_tray_hit_test(WM_MOUSEMOVE, true, false));
    assert!(needs_tray_hit_test(WM_MOUSEMOVE, false, true));
    assert!(needs_tray_hit_test(WM_MOUSEWHEEL, false, false));
    assert!(needs_tray_hit_test(WM_LBUTTONUP, false, false));
    assert!(!needs_tray_hit_test(WM_RBUTTONUP, true, true));
}

#[test]
fn message_codes_match_the_windows_headers() {
    assert_eq!(brightwheel::gesture::WM_MOUSEMOVE, WM_MOUSEMOVE);
    assert_eq!(brightwheel::gesture::WM_MOUSEWHEEL, WM_MOUSEWHEEL);
    assert_eq!(brightwheel::gesture::WM_LBUTTONUP, WM_LBUTTONUP);
    assert_eq!(brightwheel::gesture::WHEEL_DELTA, WHEEL_DELTA);
}

#[test]
fn batches_sum_one_interaction_and_drop_superseded_ones() {
    let mut accelerator = WheelAccelerator::new();
    let mut batch = WheelBatch::begin(&mut accelerator, WheelEvent { steps: 1, timestamp: 0, generation: 4 });
    batch.add(&mut accelerator, WheelEvent { steps: 1, timestamp: MILLISECOND, generation: 4 });
    assert_eq!(batch.adjustment, 4);
    batch.add(&mut accelerator, WheelEvent { steps: -1, timestamp: 2 * MILLISECOND, generation: 5 });
    assert_eq!(batch, WheelBatch { generation: 5, adjustment: -2 });
    assert_eq!(batch.finish(&mut accelerator, 5, true), Some(-2));
    assert_eq!(batch.finish(&mut accelerator, 6, true), None);
    assert_eq!(batch.finish(&mut accelerator, 5, false), None);
    assert_eq!(accelerator.adjust(event(-1, 3 * MILLISECOND)), -2);
}

#[test]
fn wheel_and_clicks_over_the_icon_drive_the_pointer_state() {
    let mut state = PointerState::new();
    let action = state.handle_mouse_event(WM_MOUSEWHEEL, true, false, mouse_data(240), 0, 500);
    assert_eq!(action, PointerAction::SendWheel { steps: 2, generation: 0 });
    assert!(state.interaction_active);
    assert!(consumes_event(WM_MOUSEWHEEL, true));
    assert!(!consumes_event(WM_MOUSEWHEEL, false));

    let action = state.handle_mouse_event(WM_MOUSEMOVE, false, false, 0, 0, 500);
    assert_eq!(action, PointerAction::Nothing);
    assert!(!state.interaction_active);
    assert_eq!(state.wheel_generation, 1);

    assert_eq!(state.handle_mouse_event(WM_LBUTTONUP, true, false, 0, 1000, 500), PointerAction::Nothing);
    assert_eq!(state.last_left_click, 1000);
    assert_eq!(state.handle_mouse_event(WM_LBUTTONUP, true, false, 0, 1200, 500), PointerAction::ToggleHdr);
    assert_eq!(state.last_left_click, 0);

    state.handle_mouse_event(WM_LBUTTONUP, true, false, 0, 2000, 500);
    state.handle_mouse_event(WM_MOUSEMOVE, false, false, 0, 0, 500);
    assert_eq!(state.last_left_click, 0);

    let mut wrapped = PointerState { interaction_active: true, wheel_generation: u32::MAX, last_left_click: 0 };
    wrapped.cancel_wheel_interaction();
    assert_eq!(wrapped.wheel_generation, 0);
}

#[test]
fn a_left_ctrl_click_on_the_icon_turns_the_monitors_off_after_five_seconds() {
    assert_eq!(MONITOR_OFF_DELAY_MS, 5000);
    let mut state = PointerState::new();
    assert_eq!(state.handle_mouse_event(WM_LBUTTONUP, true, false, 0, 1000, 500), PointerAction::Nothing);
    let action = state.handle_mouse_event(WM_LBUTTONUP, true, true, 0, 1100, 500);
    assert_eq!(action, PointerAction::TurnOffMonitors { delay_ms: 5000 });
    assert_eq!(state.last_left_click, 0);
    assert_eq!(state.handle_mouse_event(WM_LBUTTONUP, false, true, 0, 1200, 500), PointerAction::Nothing);
}
