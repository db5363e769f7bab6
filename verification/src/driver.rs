//! The render-loop driver: a state machine that consumes input events and
//! clock samples and produces the per-frame view-projection transform.
//! The windowing shell performs the returned actions and draws the frame.

use vstd::prelude::*;
use crate::fixed::SCALE;
use crate::camera::{
    CameraController, Direction, SPEED_MAX, spec_step_position, spec_new_yaw, spec_new_pitch,
    spec_new_front,
};
use crate::clock::FrameClock;
use crate::mat4::{
    Mat4, spec_perspective, spec_look_at, spec_mat_mul, perspective, mat_mul, ASPECT_MIN,
    ASPECT_MAX,
};

verus! {

/// Largest accepted window dimension in pixels; reported sizes are clamped
/// into `[1, DIM_MAX]` so the aspect ratio stays in range.
pub const DIM_MAX: u32 = 16_384;

/// Movement ticks per millisecond of frame time: ten distance units per
/// second, scaled by `SCALE` and divided by a thousand milliseconds.
pub const MOVE_RATE: i64 = 10_000;

/// Frame times at or above this cap (in milliseconds) use the largest
/// movement step, which keeps the step within `SPEED_MAX`.
pub const DT_CAP: i64 = 100_000_000;

/// A key the loop reacts to.
#[derive(Clone, Copy, PartialEq, Eq, Structural, Debug)]
pub enum Key {
    W,
    A,
    S,
    D,
    Escape,
    Other,
}

/// One polled input event.
#[derive(Clone, Copy, PartialEq, Eq, Structural, Debug)]
pub enum Event {
    KeyDown(Key),
    WindowClose,
    PointerMoved(i32, i32),
    Resized(u32, u32),
}

/// An effect the windowing shell must perform for the driver.
#[derive(Clone, Copy, PartialEq, Eq, Structural, Debug)]
pub enum Action {
    WarpPointer(u32, u32),
}

/// The loop state: whether it keeps running, the camera, the frame clock,
/// the current window size, and the movement step of the current frame.
pub struct Driver {
    pub running: bool,
    pub camera: CameraController,
    pub clock: FrameClock,
    pub width: u32,
    pub height: u32,
    pub speed: i64,
}

/// A window dimension clamped into the accepted range.
pub open spec fn spec_clamp_dim(d: int) -> int {
    if d < 1 {
        1
    } else if d > DIM_MAX {
        DIM_MAX as int
    } else {
        d
    }
}

fn clamp_dim(d: u32) -> (r: u32)
    ensures
        r == spec_clamp_dim(d as int),
{
    if d < 1 {
        1
    } else if d > DIM_MAX {
        DIM_MAX
    } else {
        d
    }
}

/// The movement step derived from a frame time in milliseconds.
pub open spec fn spec_speed(dt: int) -> int {
    if dt >= DT_CAP {
        SPEED_MAX as int
    } else {
        dt * (MOVE_RATE as int)
    }
}

/// The aspect ratio of a window, in fixed-point ticks.
pub open spec fn spec_aspect(w: int, h: int) -> int {
    (w * (SCALE as int)) / h
}

impl Driver {
    /// The state invariant: camera and clock well formed, window size in
    /// range, and the current movement step within the accepted bound.
    pub open spec fn wf(&self) -> bool {
        &&& self.camera.wf()
        &&& self.clock.wf()
        &&& 1 <= self.width <= DIM_MAX
        &&& 1 <= self.height <= DIM_MAX
        &&& 0 <= self.speed <= SPEED_MAX
    }

    /// Start the loop: running, the camera at its start state, the clock
    /// seeded with the current sample, and the reported window size.
    pub fn new(now_ms: i64, width: u32, height: u32) -> (d: Driver)
        requires
            now_ms >= 0,
        ensures
            d.wf(),
            d.running,
            d.camera.pitch == 0,
            d.camera.yaw == 270_000_000,
            d.camera.mouse.first_move,
            d.clock.last_ms == now_ms,
            d.width == spec_clamp_dim(width as int),
            d.height == spec_clamp_dim(height as int),
            d.speed == 0,
    {
        Driver {
            running: true,
            camera: CameraController::new(),
            clock: FrameClock::new(now_ms),
            width: clamp_dim(width),
            height: clamp_dim(height),
            speed: 0,
        }
    }

    /// Open a frame: advance the clock and derive the movement step that
    /// the frame's key events will use, so motion is frame-rate
    /// independent.
    pub fn begin_frame(&mut self, now_ms: i64) -> (dt: i64)
        requires
            old(self).wf(),
            now_ms >= 0,
        ensures
            final(self).wf(),
            dt == if now_ms >= old(self).clock.last_ms {
                now_ms - old(self).clock.last_ms
            } else {
                0int
            },
            dt >= 0,
            final(self).clock.last_ms == now_ms,
            final(self).speed == spec_speed(dt as int),
            final(self).camera == old(self).camera,
            final(self).running == old(self).running,
            final(self).width == old(self).width,
            final(self).height == old(self).height,
    {
        let dt = self.clock.tick(now_ms);
        self.speed = if dt >= DT_CAP {
            SPEED_MAX
        } else {
            dt * MOVE_RATE
        };
        dt
    }

    /// Dispatch one polled event.  Closing the window or pressing escape
    /// stops the loop; movement keys step the camera by the frame's speed;
    /// a pointer sample turns into a look change, after which the pointer
    /// is re-centered; a resize updates the window size used for the
    /// projection.
    pub fn handle_event(&mut self, e: Event) -> (a: Option<Action>)
        requires
            old(self).wf(),
        ensures
            final(self).wf(),
            final(self).clock == old(self).clock,
            final(self).speed == old(self).speed,
            (e == Event::WindowClose || e == Event::KeyDown(Key::Escape)) ==> {
                &&& !final(self).running
                &&& final(self).camera == old(self).camera
                &&& final(self).width == old(self).width
                &&& final(self).height == old(self).height
                &&& a is None
            },
            (e == Event::KeyDown(Key::W) || e == Event::KeyDown(Key::S)
                || e == Event::KeyDown(Key::A) || e == Event::KeyDown(Key::D)) ==> {
                let dir = if e == Event::KeyDown(Key::W) {
                    Direction::Forward
                } else if e == Event::KeyDown(Key::S) {
                    Direction::Backward
                } else if e == Event::KeyDown(Key::A) {
                    Direction::Left
                } else {
                    Direction::Right
                };
                &&& final(self).camera.position@ == spec_step_position(
                    old(self).camera.position@, old(self).camera.front@, dir,
                    old(self).speed as int)
                &&& final(self).camera.front == old(self).camera.front
                &&& final(self).camera.yaw == old(self).camera.yaw
                &&& final(self).camera.pitch == old(self).camera.pitch
                &&& final(self).camera.mouse == old(self).camera.mouse
                &&& final(self).running == old(self).running
                &&& final(self).width == old(self).width
                &&& final(self).height == old(self).height
                &&& a is None
            },
            e == Event::KeyDown(Key::Other) ==> {
                &&& final(self).camera == old(self).camera
                &&& final(self).running == old(self).running
                &&& final(self).width == old(self).width
                &&& final(self).height == old(self).height
                &&& a is None
            },
            forall|px: i32, py: i32| e == Event::PointerMoved(px, py) ==> {
                let cam = old(self).camera;
                let cx = old(self).width as int / 2;
                let cy = old(self).height as int / 2;
                &&& final(self).camera.position == cam.position
                &&& cam.mouse.first_move ==> {
                    &&& final(self).camera.yaw == cam.yaw
                    &&& final(self).camera.pitch == cam.pitch
                    &&& final(self).camera.front == cam.front
                }
                &&& !cam.mouse.first_move ==> {
                    &&& final(self).camera.yaw == spec_new_yaw(
                        cam.yaw as int, px - cam.mouse.last_x)
                    &&& final(self).camera.pitch == spec_new_pitch(
                        cam.pitch as int, cam.mouse.last_y - py)
                    &&& final(self).camera.front@ == spec_new_front(
                        cam.front@, final(self).camera.yaw as int,
                        final(self).camera.pitch as int)
                }
                &&& final(self).camera.mouse.last_x == cx
                &&& final(self).camera.mouse.last_y == cy
                &&& !final(self).camera.mouse.first_move
                &&& final(self).running == old(self).running
                &&& final(self).width == old(self).width
                &&& final(self).height == old(self).height
                &&& a == Some(Action::WarpPointer((old(self).width / 2) as u32,
                    (old(self).height / 2) as u32))
            },
            forall|w: u32, h: u32| e == Event::Resized(w, h) ==> {
                &&& final(self).width == spec_clamp_dim(w as int)
                &&& final(self).height == spec_clamp_dim(h as int)
                &&& final(self).camera == old(self).camera
                &&& final(self).running == old(self).running
                &&& a is None
            },
    {
        match e {
            Event::WindowClose => {
                self.running = false;
                None
            },
            Event::KeyDown(Key::Escape) => {
                self.running = false;
                None
            },
            Event::KeyDown(Key::W) => {
                self.camera.apply_movement(Direction::Forward, self.speed);
                None
            },
            Event::KeyDown(Key::S) => {
                self.camera.apply_movement(Direction::Backward, self.speed);
                None
            },
            Event::KeyDown(Key::A) => {
                self.camera.apply_movement(Direction::Left, self.speed);
                None
            },
            Event::KeyDown(Key::D) => {
                self.camera.apply_movement(Direction::Right, self.speed);
                None
            },
            Event::KeyDown(Key::Other) => None,
            Event::PointerMoved(px, py) => {
                self.camera.apply_mouse_delta(px, py);
                let cx = self.width / 2;
                let cy = self.height / 2;
                self.camera.set_mouse_anchor(cx as i32, cy as i32);
                Some(Action::WarpPointer(cx, cy))
            },
            Event::Resized(w, h) => {
                self.width = clamp_dim(w);
                self.height = clamp_dim(h);
                None
            },
        }
    }

    /// The aspect ratio of the current window, recomputed every frame so a
    /// resize takes effect on the next frame without any invalidation
    /// signal.
    pub fn aspect(&self) -> (r: i64)
        requires
            self.wf(),
        ensures
            r == spec_aspect(self.width as int, self.height as int),
            ASPECT_MIN <= r <= ASPECT_MAX,
    {
        proof {
            lemma_aspect_range(self.width as int, self.height as int);
        }
        crate::fixed::div_fx((self.width as i64) * crate::fixed::SCALE, self.height as i64)
    }

    /// The per-frame transform: the perspective projection for the current
    /// aspect ratio composed with the camera's view matrix.  `None` only
    /// when the view matrix degenerates (looking straight up or down).
    pub fn frame_transform(&self) -> (r: Option<Mat4>)
        requires
            self.wf(),
        ensures
            (r is Some) == (spec_look_at(self.camera.position@, self.camera.front@) is Some),
            r matches Some(t) ==> {
                let v = spec_look_at(self.camera.position@, self.camera.front@);
                let p = spec_perspective(
                    spec_aspect(self.width as int, self.height as int));
                v matches Some(vm) && t@ == spec_mat_mul(p, vm)
            },
    {
        let a = self.aspect();
        let p = perspective(a);
        match self.camera.view_matrix() {
            Some(v) => Some(mat_mul(&p, &v)),
            None => None,
        }
    }
}

/// The aspect ratio of an in-range window stays within the accepted range.
proof fn lemma_aspect_range(w: int, h: int)
    requires
        1 <= w <= DIM_MAX,
        1 <= h <= DIM_MAX,
    ensures
        ASPECT_MIN <= spec_aspect(w, h) <= ASPECT_MAX,
{
    vstd::arithmetic::div_mod::lemma_div_is_ordered(
        SCALE as int, w * (SCALE as int), h);
    vstd::arithmetic::div_mod::lemma_div_is_ordered_by_denominator(
        SCALE as int, h, DIM_MAX as int);
    vstd::arithmetic::div_mod::lemma_fundamental_div_mod_converse(
        1_000_000, 16_384, 61, 576);
    assert((SCALE as int) <= w * (SCALE as int)) by (nonlinear_arith)
        requires w >= 1, SCALE == 1_000_000;
    vstd::arithmetic::div_mod::lemma_div_is_ordered(
        w * (SCALE as int), (DIM_MAX as int) * (SCALE as int), h);
    vstd::arithmetic::div_mod::lemma_div_is_ordered_by_denominator(
        (DIM_MAX as int) * (SCALE as int), 1, h);
    vstd::arithmetic::div_mod::lemma_fundamental_div_mod_converse(
        (DIM_MAX as int) * (SCALE as int), 1, (DIM_MAX as int) * (SCALE as int), 0);
    assert((DIM_MAX as int) * (SCALE as int) == 16_384_000_000) by (nonlinear_arith)
        requires DIM_MAX == 16_384, SCALE == 1_000_000;
}

} // verus!
