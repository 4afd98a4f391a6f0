use obj_viewer::camera::{
    CameraController, InputEvent, INITIAL_ZOOM_MICRO, KEY_STEP_MICRORAD, PITCH_LIMIT_MICRORAD,
    ZOOM_MAX_MICRO, ZOOM_MIN_MICRO,
};

#[test]
fn initial_state() {
    let controller = CameraController::new();
    assert_eq!(controller.camera.theta_microrad, 0);
    assert_eq!(controller.camera.phi_microrad, 0);
    assert_eq!(controller.camera.zoom_micro, INITIAL_ZOOM_MICRO);
    assert!(!controller.drag.is_dragging);
}

#[test]
fn tilt_up_never_exceeds_pitch_limit() {
    // Starting at phi = 1.5 rad, repeated tilt-up stops exactly at the
    // half-pi clamp and never passes it.
    let mut controller = CameraController::new();
    controller.camera.phi_microrad = 1_500_000;
    for _ in 0..10 {
        let quit = controller.apply_event(&InputEvent::TiltUp);
        assert!(!quit);
        assert!(controller.camera.phi_microrad <= PITCH_LIMIT_MICRORAD);
    }
    assert_eq!(controller.camera.phi_microrad, PITCH_LIMIT_MICRORAD);
}

#[test]
fn tilt_down_never_passes_negative_pitch_limit() {
    let mut controller = CameraController::new();
    for _ in 0..20 {
        controller.apply_event(&InputEvent::TiltDown);
        assert!(controller.camera.phi_microrad >= -PITCH_LIMIT_MICRORAD);
    }
    assert_eq!(controller.camera.phi_microrad, -PITCH_LIMIT_MICRORAD);
}

#[test]
fn fifty_scroll_ups_converge_to_min_zoom() {
    // 50 consecutive scroll-up events from zoom 1.0 end exactly at the 0.1
    // clamp, never below it.
    let mut controller = CameraController::new();
    for _ in 0..50 {
        controller.apply_event(&InputEvent::Scroll { delta_y: 3 });
        assert!(controller.camera.zoom_micro >= ZOOM_MIN_MICRO);
    }
    assert_eq!(controller.camera.zoom_micro, ZOOM_MIN_MICRO);
}

#[test]
fn scroll_downs_converge_to_max_zoom() {
    let mut controller = CameraController::new();
    for _ in 0..120 {
        controller.apply_event(&InputEvent::Scroll { delta_y: -1 });
        assert!(controller.camera.zoom_micro <= ZOOM_MAX_MICRO);
    }
    assert_eq!(controller.camera.zoom_micro, ZOOM_MAX_MICRO);
}

#[test]
fn press_then_release_leaves_camera_unchanged() {
    let mut controller = CameraController::new();
    controller.camera.theta_microrad = 123_456;
    controller.camera.phi_microrad = -654_321;
    let before = controller.camera;
    controller.apply_event(&InputEvent::ButtonPress { x: 40, y: 70 });
    controller.apply_event(&InputEvent::ButtonRelease);
    assert_eq!(controller.camera, before);
    assert!(!controller.drag.is_dragging);
}

#[test]
fn drag_one_hundred_pixels_right_turns_half_radian() {
    // A pointer move of (dx, dy) = (100, 0) while dragging changes theta by
    // exactly 100 * 0.005 = 0.5 rad and leaves phi alone.
    let mut controller = CameraController::new();
    controller.apply_event(&InputEvent::ButtonPress { x: 200, y: 150 });
    controller.apply_event(&InputEvent::PointerMove { x: 300, y: 150 });
    assert_eq!(controller.camera.theta_microrad, 500_000);
    assert_eq!(controller.camera.phi_microrad, 0);
}

#[test]
fn pointer_move_without_drag_changes_nothing() {
    let mut controller = CameraController::new();
    let before = controller;
    controller.apply_event(&InputEvent::PointerMove { x: 500, y: 500 });
    assert_eq!(controller, before);
}

#[test]
fn drag_updates_cursor_tracking_between_moves() {
    let mut controller = CameraController::new();
    controller.apply_event(&InputEvent::ButtonPress { x: 0, y: 0 });
    controller.apply_event(&InputEvent::PointerMove { x: 10, y: 0 });
    controller.apply_event(&InputEvent::PointerMove { x: 30, y: 0 });
    // 10 px, then another 20 px: 30 px in all, at 0.005 rad each.
    assert_eq!(controller.camera.theta_microrad, 150_000);
    assert_eq!(controller.drag.last_cursor_x, 30);
}

#[test]
fn rotate_keys_step_a_tenth_radian() {
    let mut controller = CameraController::new();
    controller.apply_event(&InputEvent::RotateRight);
    assert_eq!(controller.camera.theta_microrad, KEY_STEP_MICRORAD);
    controller.apply_event(&InputEvent::RotateLeft);
    controller.apply_event(&InputEvent::RotateLeft);
    assert_eq!(controller.camera.theta_microrad, -KEY_STEP_MICRORAD);
}

#[test]
fn process_events_stops_at_quit() {
    let mut controller = CameraController::new();
    let events = vec![
        InputEvent::RotateRight,
        InputEvent::Quit,
        InputEvent::RotateRight,
        InputEvent::RotateRight,
    ];
    let quit = controller.process_events(&events);
    assert!(quit);
    // Only the event before the quit signal was applied.
    assert_eq!(controller.camera.theta_microrad, KEY_STEP_MICRORAD);
}

#[test]
fn process_events_without_quit_applies_all() {
    let mut controller = CameraController::new();
    let events = vec![
        InputEvent::ButtonPress { x: 0, y: 0 },
        InputEvent::PointerMove { x: 100, y: 0 },
        InputEvent::ButtonRelease,
        InputEvent::TiltUp,
    ];
    let quit = controller.process_events(&events);
    assert!(!quit);
    assert_eq!(controller.camera.theta_microrad, 500_000);
    assert_eq!(controller.camera.phi_microrad, KEY_STEP_MICRORAD);
    assert!(!controller.drag.is_dragging);
}
