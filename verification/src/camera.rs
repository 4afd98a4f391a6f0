//! The orbit-camera controller: yaw, pitch and zoom updated by discrete
//! input events, together with the drag-tracking state.
//!
//! Angles are held in microradians and the zoom factor in millionths, so
//! every step the controller takes (0.005 rad per dragged pixel, 0.1 rad per
//! key press, 0.1 per scroll step) is an exact integer amount.

use vstd::prelude::*;

verus! {

/// Yaw change per dragged pixel: 0.005 rad, in microradians.
pub const DRAG_STEP_MICRORAD: i64 = 5_000;

/// Yaw or pitch change per discrete key press: 0.1 rad, in microradians.
pub const KEY_STEP_MICRORAD: i64 = 100_000;

/// Pitch clamp bound: half pi in microradians, rounded down. Pitch always
/// stays in `[-PITCH_LIMIT_MICRORAD, PITCH_LIMIT_MICRORAD]`.
pub const PITCH_LIMIT_MICRORAD: i64 = 1_570_796;

/// Zoom change per scroll step: 0.1, in millionths.
pub const ZOOM_STEP_MICRO: i64 = 100_000;

/// Smallest zoom factor: 0.1, in millionths.
pub const ZOOM_MIN_MICRO: i64 = 100_000;

/// Largest zoom factor: 10.0, in millionths.
pub const ZOOM_MAX_MICRO: i64 = 10_000_000;

/// Starting zoom factor: 1.0, in millionths.
pub const INITIAL_ZOOM_MICRO: i64 = 1_000_000;

/// The orbit-camera state: yaw and pitch in microradians, zoom factor in
/// millionths. The target (the origin) and the up direction (+Y) are fixed
/// and carry no state.
#[derive(Clone, Copy, Debug, PartialEq, Eq, Structural)]
pub struct CameraState {
    /// Yaw in microradians; unbounded, the renderer wraps it through trig.
    pub theta_microrad: i64,
    /// Pitch in microradians, always within the pitch clamp.
    pub phi_microrad: i64,
    /// Zoom factor in millionths, always within the zoom clamp.
    pub zoom_micro: i64,
}

/// The pointer-drag tracking state: whether the primary button is held, and
/// the last observed cursor position in window pixels.
#[derive(Clone, Copy, Debug, PartialEq, Eq, Structural)]
pub struct DragState {
    /// True between a primary-button press and the matching release.
    pub is_dragging: bool,
    /// Last observed cursor x, in pixels.
    pub last_cursor_x: i32,
    /// Last observed cursor y, in pixels.
    pub last_cursor_y: i32,
}

/// The camera controller: camera state plus drag state, advanced one input
/// event at a time.
#[derive(Clone, Copy, Debug, PartialEq, Eq, Structural)]
pub struct CameraController {
    /// The orbit-camera state the renderer reads each frame.
    pub camera: CameraState,
    /// The pointer-drag tracking state.
    pub drag: DragState,
}

/// One discrete input event, as the windowing layer reports it. A quit
/// signal and the escape key both arrive as `Quit`.
#[derive(Clone, Copy, Debug, PartialEq, Eq, Structural)]
pub enum InputEvent {
    /// Quit signal or escape key: ends the application loop.
    Quit,
    /// Primary button pressed at the given cursor position.
    ButtonPress { x: i32, y: i32 },
    /// Primary button released.
    ButtonRelease,
    /// Pointer moved to the given cursor position.
    PointerMove { x: i32, y: i32 },
    /// Discrete rotate-left key: yaw decreases one key step.
    RotateLeft,
    /// Discrete rotate-right key: yaw increases one key step.
    RotateRight,
    /// Discrete tilt-up key: pitch increases one key step, then clamps.
    TiltUp,
    /// Discrete tilt-down key: pitch decreases one key step, then clamps.
    TiltDown,
    /// Scroll with a vertical delta; only its sign matters.
    Scroll { delta_y: i32 },
}

/// `v` clamped to `[lo, hi]`.
pub open spec fn clip(v: int, lo: int, hi: int) -> int {
    if v < lo {
        lo
    } else if v > hi {
        hi
    } else {
        v
    }
}

/// `v` brought back into the range of `i64`. Yaw is unbounded in the design,
/// so at the very edge of the machine range it saturates rather than wrap.
pub open spec fn sat_i64(v: int) -> int {
    clip(v, i64::MIN as int, i64::MAX as int)
}

impl CameraState {
    /// The camera invariant: pitch and zoom are within their clamps.
    pub open spec fn wf(self) -> bool {
        &&& -PITCH_LIMIT_MICRORAD <= self.phi_microrad <= PITCH_LIMIT_MICRORAD
        &&& ZOOM_MIN_MICRO <= self.zoom_micro <= ZOOM_MAX_MICRO
    }
}

/// The camera state after one event, with the drag state it reads left as
/// it stands in `c`.
pub open spec fn camera_after(c: CameraController, event: InputEvent) -> CameraState {
    match event {
        InputEvent::Quit => c.camera,
        InputEvent::ButtonPress { .. } => c.camera,
        InputEvent::ButtonRelease => c.camera,
        InputEvent::PointerMove { x, y } => {
            if c.drag.is_dragging {
                let dx = x as int - c.drag.last_cursor_x as int;
                let dy = y as int - c.drag.last_cursor_y as int;
                CameraState {
                    theta_microrad: sat_i64(
                        c.camera.theta_microrad + dx * DRAG_STEP_MICRORAD,
                    ) as i64,
                    phi_microrad: clip(
                        c.camera.phi_microrad + dy * DRAG_STEP_MICRORAD,
                        -PITCH_LIMIT_MICRORAD as int,
                        PITCH_LIMIT_MICRORAD as int,
                    ) as i64,
                    zoom_micro: c.camera.zoom_micro,
                }
            } else {
                c.camera
            }
        },
        InputEvent::RotateLeft => CameraState {
            theta_microrad: sat_i64(c.camera.theta_microrad - KEY_STEP_MICRORAD) as i64,
            ..c.camera
        },
        InputEvent::RotateRight => CameraState {
            theta_microrad: sat_i64(c.camera.theta_microrad + KEY_STEP_MICRORAD) as i64,
            ..c.camera
        },
        InputEvent::TiltUp => CameraState {
            phi_microrad: clip(
                c.camera.phi_microrad + KEY_STEP_MICRORAD,
                -PITCH_LIMIT_MICRORAD as int,
                PITCH_LIMIT_MICRORAD as int,
            ) as i64,
            ..c.camera
        },
        InputEvent::TiltDown => CameraState {
            phi_microrad: clip(
                c.camera.phi_microrad - KEY_STEP_MICRORAD,
                -PITCH_LIMIT_MICRORAD as int,
                PITCH_LIMIT_MICRORAD as int,
            ) as i64,
            ..c.camera
        },
        InputEvent::Scroll { delta_y } => CameraState {
            zoom_micro: clip(
                c.camera.zoom_micro + if delta_y > 0 {
                    -ZOOM_STEP_MICRO as int
                } else {
                    ZOOM_STEP_MICRO as int
                },
                ZOOM_MIN_MICRO as int,
                ZOOM_MAX_MICRO as int,
            ) as i64,
            ..c.camera
        },
    }
}

/// The drag state after one event.
pub open spec fn drag_after(c: CameraController, event: InputEvent) -> DragState {
    match event {
        InputEvent::ButtonPress { x, y } => DragState {
            is_dragging: true,
            last_cursor_x: x,
            last_cursor_y: y,
        },
        InputEvent::ButtonRelease => DragState { is_dragging: false, ..c.drag },
        InputEvent::PointerMove { x, y } => {
            if c.drag.is_dragging {
                DragState { is_dragging: true, last_cursor_x: x, last_cursor_y: y }
            } else {
                c.drag
            }
        },
        _ => c.drag,
    }
}

/// The whole controller after one event.
pub open spec fn camera_step(c: CameraController, event: InputEvent) -> CameraController {
    CameraController { camera: camera_after(c, event), drag: drag_after(c, event) }
}

/// The controller after a sequence of events processed in arrival order,
/// stopping at the first quit signal as the application loop does.
pub open spec fn run_events(c: CameraController, events: Seq<InputEvent>) -> CameraController
    decreases events.len(),
{
    if events.len() == 0 {
        c
    } else if events[0] is Quit {
        c
    } else {
        run_events(camera_step(c, events[0]), events.skip(1))
    }
}

/// Whether a sequence of events holds a quit signal.
pub open spec fn any_quit(events: Seq<InputEvent>) -> bool {
    exists|i: int| 0 <= i < events.len() && events[i] is Quit
}

/// The controller as the viewer starts: camera at yaw 0, pitch 0, zoom 1.0,
/// not dragging, last cursor at the window origin.
pub open spec fn initial_controller() -> CameraController {
    CameraController {
        camera: CameraState {
            theta_microrad: 0i64,
            phi_microrad: 0i64,
            zoom_micro: INITIAL_ZOOM_MICRO,
        },
        drag: DragState { is_dragging: false, last_cursor_x: 0i32, last_cursor_y: 0i32 },
    }
}

/// `v` clamped to `[lo, hi]`.
fn clip_i64(v: i64, lo: i64, hi: i64) -> (r: i64)
    requires
        lo <= hi,
    ensures
        r as int == clip(v as int, lo as int, hi as int),
{
    if v < lo {
        lo
    } else if v > hi {
        hi
    } else {
        v
    }
}

/// Saturating addition on `i64`.
fn sat_add_i64(a: i64, b: i64) -> (r: i64)
    ensures
        r as int == sat_i64(a as int + b as int),
{
    if b >= 0 {
        if a > i64::MAX - b {
            i64::MAX
        } else {
            a + b
        }
    } else {
        if a < i64::MIN - b {
            i64::MIN
        } else {
            a + b
        }
    }
}

impl CameraController {
    /// The controller invariant: the camera's pitch and zoom are within
    /// their clamps.
    pub open spec fn wf(self) -> bool {
        self.camera.wf()
    }

    /// The controller as the viewer starts.
    pub fn new() -> (c: CameraController)
        ensures
            c == initial_controller(),
            c.wf(),
    {
        CameraController {
            camera: CameraState {
                theta_microrad: 0,
                phi_microrad: 0,
                zoom_micro: INITIAL_ZOOM_MICRO,
            },
            drag: DragState { is_dragging: false, last_cursor_x: 0, last_cursor_y: 0 },
        }
    }

    /// Advances the controller by one input event and reports whether the
    /// event was a quit signal.
    pub fn apply_event(&mut self, event: &InputEvent) -> (quit: bool)
        requires
            old(self).wf(),
        ensures
            *final(self) == camera_step(*old(self), *event),
            final(self).wf(),
            quit == (*event is Quit),
    {
        match *event {
            InputEvent::Quit => true,
            InputEvent::ButtonPress { x, y } => {
                self.drag = DragState { is_dragging: true, last_cursor_x: x, last_cursor_y: y };
                false
            },
            InputEvent::ButtonRelease => {
                self.drag.is_dragging = false;
                false
            },
            InputEvent::PointerMove { x, y } => {
                if self.drag.is_dragging {
                    let dx: i64 = x as i64 - self.drag.last_cursor_x as i64;
                    let dy: i64 = y as i64 - self.drag.last_cursor_y as i64;
                    self.camera.theta_microrad = sat_add_i64(
                        self.camera.theta_microrad,
                        dx * DRAG_STEP_MICRORAD,
                    );
                    self.camera.phi_microrad = clip_i64(
                        self.camera.phi_microrad + dy * DRAG_STEP_MICRORAD,
                        -PITCH_LIMIT_MICRORAD,
                        PITCH_LIMIT_MICRORAD,
                    );
                    self.drag = DragState { is_dragging: true, last_cursor_x: x, last_cursor_y: y };
                }
                false
            },
            InputEvent::RotateLeft => {
                self.camera.theta_microrad = sat_add_i64(
                    self.camera.theta_microrad,
                    -KEY_STEP_MICRORAD,
                );
                false
            },
            InputEvent::RotateRight => {
                self.camera.theta_microrad = sat_add_i64(
                    self.camera.theta_microrad,
                    KEY_STEP_MICRORAD,
                );
                false
            },
            InputEvent::TiltUp => {
                self.camera.phi_microrad = clip_i64(
                    self.camera.phi_microrad + KEY_STEP_MICRORAD,
                    -PITCH_LIMIT_MICRORAD,
                    PITCH_LIMIT_MICRORAD,
                );
                false
            },
            InputEvent::TiltDown => {
                self.camera.phi_microrad = clip_i64(
                    self.camera.phi_microrad - KEY_STEP_MICRORAD,
                    -PITCH_LIMIT_MICRORAD,
                    PITCH_LIMIT_MICRORAD,
                );
                false
            },
            InputEvent::Scroll { delta_y } => {
                let step: i64 = if delta_y > 0 {
                    -ZOOM_STEP_MICRO
                } else {
                    ZOOM_STEP_MICRO
                };
                self.camera.zoom_micro = clip_i64(
                    self.camera.zoom_micro + step,
                    ZOOM_MIN_MICRO,
                    ZOOM_MAX_MICRO,
                );
                false
            },
        }
    }

    /// Drains one frame's worth of events in arrival order, stopping at the
    /// first quit signal, and reports whether one arrived.
    #[verifier::loop_isolation(false)]
    pub fn process_events(&mut self, events: &Vec<InputEvent>) -> (quit: bool)
        requires
            old(self).wf(),
        ensures
            *final(self) == run_events(*old(self), events@),
            final(self).wf(),
            quit == any_quit(events@),
    {
        let ghost orig = *self;
        proof {
            assert(events@.skip(0) =~= events@);
        }
        let mut i: usize = 0;
        while i < events.len()
            invariant
                i <= events@.len(),
                self.wf(),
                run_events(orig, events@) == run_events(*self, events@.skip(i as int)),
                forall|j: int| 0 <= j < i ==> !(events@[j] is Quit),
            decreases events@.len() - i,
        {
            let ghost before = *self;
            let quit = self.apply_event(&events[i]);
            proof {
                assert(events@.skip(i as int)[0] == events@[i as int]);
                assert(events@.skip(i as int).skip(1) =~= events@.skip(i as int + 1));
            }
            if quit {
                proof {
                    assert(camera_step(before, events@[i as int]) == before);
                    assert(run_events(before, events@.skip(i as int)) == before);
                }
                return true;
            }
            i = i + 1;
        }
        proof {
            assert(events@.skip(events@.len() as int) =~= Seq::<InputEvent>::empty());
        }
        false
    }
}

/// One step keeps the controller invariant.
proof fn lemma_step_preserves_wf(c: CameraController, event: InputEvent)
    requires
        c.wf(),
    ensures
        camera_step(c, event).wf(),
{
}

/// Any event sequence keeps the controller invariant.
proof fn lemma_run_events_wf(c: CameraController, events: Seq<InputEvent>)
    requires
        c.wf(),
    ensures
        run_events(c, events).wf(),
    decreases events.len(),
{
    if events.len() > 0 && !(events[0] is Quit) {
        lemma_step_preserves_wf(c, events[0]);
        lemma_run_events_wf(camera_step(c, events[0]), events.skip(1));
    }
}

/// Pitch is always within `[-PITCH_LIMIT_MICRORAD, PITCH_LIMIT_MICRORAD]`
/// after any sequence of pointer-drag, discrete-tilt, or other events.
pub proof fn lemma_pitch_always_clamped(c: CameraController, events: Seq<InputEvent>)
    requires
        c.wf(),
    ensures
        -PITCH_LIMIT_MICRORAD <= run_events(c, events).camera.phi_microrad
            <= PITCH_LIMIT_MICRORAD,
{
    lemma_run_events_wf(c, events);
}

/// The zoom factor is always within `[ZOOM_MIN_MICRO, ZOOM_MAX_MICRO]`
/// after any sequence of scroll or other events.
pub proof fn lemma_zoom_always_clamped(c: CameraController, events: Seq<InputEvent>)
    requires
        c.wf(),
    ensures
        ZOOM_MIN_MICRO <= run_events(c, events).camera.zoom_micro <= ZOOM_MAX_MICRO,
{
    lemma_run_events_wf(c, events);
}

/// Drag-tracking idempotence: a button press followed immediately by a
/// button release, with no motion between them, leaves the whole camera
/// state (yaw, pitch and zoom) unchanged.
pub proof fn lemma_press_release_leaves_camera(c: CameraController, x: i32, y: i32)
    ensures
        run_events(
            c,
            seq![InputEvent::ButtonPress { x, y }, InputEvent::ButtonRelease],
        ).camera == c.camera,
{
    let events = seq![InputEvent::ButtonPress { x, y }, InputEvent::ButtonRelease];
    let after_press = camera_step(c, events[0]);
    let after_release = camera_step(after_press, InputEvent::ButtonRelease);
    assert(events.skip(1) =~= seq![InputEvent::ButtonRelease]);
    assert(events.skip(1).skip(1) =~= Seq::<InputEvent>::empty());
    assert(run_events(c, events) == run_events(after_press, events.skip(1)));
    assert(run_events(after_press, events.skip(1)) == run_events(
        after_release,
        events.skip(1).skip(1),
    ));
    assert(run_events(after_release, Seq::<InputEvent>::empty()) == after_release);
}

} // verus!
