//! The camera controller: position and orientation state, movement keys,
//! and mouse look with pitch clamping and a first-sample guard.

use vstd::prelude::*;
use crate::fixed::{SCALE, FULL_TURN, sdiv, wrap_angle, div_fx, lemma_sdiv_bound};
use crate::vec3::{
    Vec3, V3, within, spec_norm_sq, spec_normalize, spec_scale, spec_neg, norm_sq, normalize,
    lemma_product_bound, COMP_LIMIT,
};
use crate::trig::{sin_fx, cos_fx, spec_sin, spec_cos};

verus! {

/// The vertical look limit: a quarter turn in micro-degrees.  Pitch is
/// clamped to `[-PITCH_LIMIT, PITCH_LIMIT]` so the view never flips past
/// vertical.
pub const PITCH_LIMIT: i64 = 90_000_000;

/// Mouse sensitivity: micro-degrees of rotation per pixel of pointer travel
/// (0.001 degrees per pixel).
pub const SENSITIVITY: i64 = 1_000;

/// The largest position coordinate the camera may reach, in fixed-point
/// ticks (a million distance units); movement that would leave this box is
/// ignored, which keeps the view transform within the machine range.
pub const POS_LIMIT: i64 = 1_000_000_000_000;

/// The largest movement step accepted per call, in fixed-point ticks.
pub const SPEED_MAX: i64 = 1_000_000_000_000;

/// Lower bound of the accepted squared magnitude of a unit front vector:
/// `(SCALE - 5000)^2`, half a percent below unit length.
pub const UNIT_NORM_SQ_LO: i64 = 990_025_000_000;

/// Upper bound of the accepted squared magnitude of a unit front vector:
/// `(SCALE + 5000)^2`, half a percent above unit length.
pub const UNIT_NORM_SQ_HI: i64 = 1_010_025_000_000;

/// A movement key: along the view direction or strafing across it.
#[derive(Clone, Copy, PartialEq, Eq, Structural, Debug)]
pub enum Direction {
    Forward,
    Backward,
    Left,
    Right,
}

/// The previous pointer sample, and whether any sample was seen yet: the
/// first sample only sets the reference, so it cannot cause a jump.
pub struct MouseTracking {
    pub last_x: i32,
    pub last_y: i32,
    pub first_move: bool,
}

/// Camera state: position, unit front vector, and the yaw/pitch angles the
/// front vector is derived from (micro-degrees).
pub struct CameraController {
    pub position: Vec3,
    pub front: Vec3,
    pub yaw: i64,
    pub pitch: i64,
    pub mouse: MouseTracking,
}

/// The position stays within the allowed box.
pub open spec fn in_box(p: V3) -> bool {
    within(p, POS_LIMIT as int)
}

/// Unit length up to the accepted tolerance, stated on the squared
/// magnitude.
pub open spec fn unit_norm(v: V3) -> bool {
    UNIT_NORM_SQ_LO <= spec_norm_sq(v) <= UNIT_NORM_SQ_HI
}

/// A vector of unit norm has components no larger than `SCALE + 5000`.
pub proof fn lemma_unit_comp_bound(v: V3)
    requires
        unit_norm(v),
    ensures
        within(v, SCALE as int + 5000),
{
    crate::vec3::lemma_square_nonneg(v.x);
    crate::vec3::lemma_square_nonneg(v.y);
    crate::vec3::lemma_square_nonneg(v.z);
    assert(within(v, SCALE as int + 5000)) by (nonlinear_arith)
        requires
            v.x * v.x <= UNIT_NORM_SQ_HI,
            v.y * v.y <= UNIT_NORM_SQ_HI,
            v.z * v.z <= UNIT_NORM_SQ_HI,
            UNIT_NORM_SQ_HI == (SCALE as int + 5000) * (SCALE as int + 5000);
}

/// The right-hand strafe axis before normalization: the cross product of
/// the front vector with the world up direction `(0, 1, 0)`.
pub open spec fn spec_right_raw(front: V3) -> V3 {
    V3 { x: -front.z, y: 0, z: front.x }
}

/// The displacement a movement key produces: `speed` along the front vector
/// or along the normalized strafe axis.  A degenerate strafe axis (looking
/// straight up or down) produces no displacement.
pub open spec fn spec_move_delta(front: V3, dir: Direction, speed: int) -> V3 {
    match dir {
        Direction::Forward => spec_scale(front, speed),
        Direction::Backward => spec_neg(spec_scale(front, speed)),
        Direction::Right => {
            let raw = spec_right_raw(front);
            if spec_norm_sq(raw) < 1 {
                V3 { x: 0, y: 0, z: 0 }
            } else {
                spec_scale(spec_normalize(raw), speed)
            }
        },
        Direction::Left => {
            let raw = spec_right_raw(front);
            if spec_norm_sq(raw) < 1 {
                V3 { x: 0, y: 0, z: 0 }
            } else {
                spec_neg(spec_scale(spec_normalize(raw), speed))
            }
        },
    }
}

/// One movement step: add the displacement, unless that would leave the
/// position box, in which case the position is unchanged.
pub open spec fn spec_step_position(pos: V3, front: V3, dir: Direction, speed: int) -> V3 {
    let d = spec_move_delta(front, dir, speed);
    let cand = V3 { x: pos.x + d.x, y: pos.y + d.y, z: pos.z + d.z };
    if in_box(cand) {
        cand
    } else {
        pos
    }
}

/// The yaw after a horizontal pointer offset, wrapped into one turn.
pub open spec fn spec_new_yaw(yaw: int, dx: int) -> int {
    (yaw + dx * (SENSITIVITY as int)) % (FULL_TURN as int)
}

/// The pitch after a vertical pointer offset, clamped to the vertical
/// limits.
pub open spec fn spec_new_pitch(pitch: int, dy: int) -> int {
    let p = pitch + dy * (SENSITIVITY as int);
    if p > PITCH_LIMIT {
        PITCH_LIMIT as int
    } else if p < -PITCH_LIMIT {
        -PITCH_LIMIT as int
    } else {
        p
    }
}

/// The front direction derived from yaw and pitch, before normalization:
/// `(cos(pitch)cos(yaw), sin(pitch), sin(yaw)cos(pitch))`.
pub open spec fn spec_front_raw(yaw: int, pitch: int) -> V3 {
    V3 {
        x: sdiv(spec_cos(pitch) * spec_cos(yaw), SCALE as int),
        y: spec_sin(pitch),
        z: sdiv(spec_sin(yaw) * spec_cos(pitch), SCALE as int),
    }
}

/// The front vector after an orientation change: the normalized derived
/// direction, accepted only if it is unit length up to the tolerance;
/// otherwise the previous front vector is kept (which preserves the unit
/// invariant unconditionally).
pub open spec fn spec_new_front(old_front: V3, yaw: int, pitch: int) -> V3 {
    let raw = spec_front_raw(yaw, pitch);
    if spec_norm_sq(raw) < 1 {
        old_front
    } else {
        let f = spec_normalize(raw);
        if unit_norm(f) {
            f
        } else {
            old_front
        }
    }
}

impl CameraController {
    /// The state invariant: yaw reduced to one turn, pitch clamped, the
    /// front vector unit length up to the tolerance, and the position
    /// within the box.
    pub open spec fn wf(&self) -> bool {
        &&& 0 <= self.yaw < FULL_TURN
        &&& -PITCH_LIMIT <= self.pitch <= PITCH_LIMIT
        &&& unit_norm(self.front@)
        &&& in_box(self.position@)
    }

    /// The start state: three units back from the origin, looking down the
    /// negative z axis (yaw of three quarter turns, pitch level).
    pub fn new() -> (c: CameraController)
        ensures
            c.wf(),
            c.position@ == (V3 { x: 0, y: 0, z: 3 * SCALE as int }),
            c.front@ == (V3 { x: 0, y: 0, z: -(SCALE as int) }),
            c.yaw == 270_000_000,
            c.pitch == 0,
            c.mouse.first_move,
    {
        let c = CameraController {
            position: Vec3 { x: 0, y: 0, z: 3_000_000 },
            front: Vec3 { x: 0, y: 0, z: -1_000_000 },
            yaw: 270_000_000,
            pitch: 0,
            mouse: MouseTracking { last_x: 400, last_y: 300, first_move: true },
        };
        proof {
            assert((-1_000_000int) * (-1_000_000int) == 1_000_000_000_000int)
                by (nonlinear_arith);
            assert(0int * 0int == 0int) by (nonlinear_arith);
            assert(spec_norm_sq(c.front@) == 1_000_000_000_000);
        }
        c
    }

    /// Apply a movement key: displace the position by `speed` along the
    /// direction's axis, leaving it unchanged if the step would leave the
    /// position box or the strafe axis is degenerate.
    pub fn apply_movement(&mut self, dir: Direction, speed: i64)
        requires
            old(self).wf(),
            0 <= speed <= SPEED_MAX,
        ensures
            final(self).wf(),
            final(self).position@ == spec_step_position(
                old(self).position@, old(self).front@, dir, speed as int),
            final(self).front == old(self).front,
            final(self).yaw == old(self).yaw,
            final(self).pitch == old(self).pitch,
            final(self).mouse == old(self).mouse,
    {
        proof {
            lemma_unit_comp_bound(self.front@);
        }
        let d: Vec3 = match dir {
            Direction::Forward => scale_by_speed(&self.front, speed),
            Direction::Backward => {
                let s = scale_by_speed(&self.front, speed);
                Vec3 { x: -s.x, y: -s.y, z: -s.z }
            },
            Direction::Right => {
                let raw = Vec3 { x: -self.front.z, y: 0, z: self.front.x };
                let ns = norm_sq(&raw);
                if ns < 1 {
                    Vec3 { x: 0, y: 0, z: 0 }
                } else {
                    let axis = normalize(&raw);
                    scale_by_speed(&axis, speed)
                }
            },
            Direction::Left => {
                let raw = Vec3 { x: -self.front.z, y: 0, z: self.front.x };
                let ns = norm_sq(&raw);
                if ns < 1 {
                    Vec3 { x: 0, y: 0, z: 0 }
                } else {
                    let axis = normalize(&raw);
                    let s = scale_by_speed(&axis, speed);
                    Vec3 { x: -s.x, y: -s.y, z: -s.z }
                }
            },
        };
        let cx = self.position.x + d.x;
        let cy = self.position.y + d.y;
        let cz = self.position.z + d.z;
        if -POS_LIMIT <= cx && cx <= POS_LIMIT && -POS_LIMIT <= cy && cy <= POS_LIMIT
            && -POS_LIMIT <= cz && cz <= POS_LIMIT {
            self.position = Vec3 { x: cx, y: cy, z: cz };
        }
    }

    /// Consume a pointer sample.  The very first sample only records the
    /// reference position and changes no orientation; later samples turn
    /// the offsets from the previous sample into yaw and pitch changes and
    /// re-derive the front vector.
    pub fn apply_mouse_delta(&mut self, x: i32, y: i32)
        requires
            old(self).wf(),
        ensures
            final(self).wf(),
            final(self).mouse.last_x == x,
            final(self).mouse.last_y == y,
            !final(self).mouse.first_move,
            final(self).position == old(self).position,
            old(self).mouse.first_move ==> {
                &&& final(self).yaw == old(self).yaw
                &&& final(self).pitch == old(self).pitch
                &&& final(self).front == old(self).front
            },
            !old(self).mouse.first_move ==> {
                let dx = x - old(self).mouse.last_x;
                let dy = old(self).mouse.last_y - y;
                &&& final(self).yaw == spec_new_yaw(old(self).yaw as int, dx)
                &&& final(self).pitch == spec_new_pitch(old(self).pitch as int, dy)
                &&& final(self).front@ == spec_new_front(
                    old(self).front@, final(self).yaw as int, final(self).pitch as int)
            },
    {
        if self.mouse.first_move {
            self.mouse = MouseTracking { last_x: x, last_y: y, first_move: false };
            return;
        }
        let dx = (x as i64) - (self.mouse.last_x as i64);
        let dy = (self.mouse.last_y as i64) - (y as i64);
        self.mouse = MouseTracking { last_x: x, last_y: y, first_move: false };

        self.yaw = wrap_angle(self.yaw + dx * SENSITIVITY);
        let p = self.pitch + dy * SENSITIVITY;
        self.pitch = if p > PITCH_LIMIT {
            PITCH_LIMIT
        } else if p < -PITCH_LIMIT {
            -PITCH_LIMIT
        } else {
            p
        };

        let cp = cos_fx(self.pitch);
        let sp = sin_fx(self.pitch);
        let cy = cos_fx(self.yaw);
        let sy = sin_fx(self.yaw);
        proof {
            lemma_product_bound(cp as int, cy as int, SCALE as int);
            lemma_product_bound(sy as int, cp as int, SCALE as int);
            lemma_sdiv_bound((cp as int) * (cy as int), SCALE as int, SCALE as int);
            lemma_sdiv_bound((sy as int) * (cp as int), SCALE as int, SCALE as int);
        }
        let raw = Vec3 {
            x: div_fx(cp * cy, SCALE),
            y: sp,
            z: div_fx(sy * cp, SCALE),
        };
        let ns = norm_sq(&raw);
        if ns >= 1 {
            let f = normalize(&raw);
            let fns = norm_sq(&f);
            if UNIT_NORM_SQ_LO <= fns && fns <= UNIT_NORM_SQ_HI {
                self.front = f;
            }
        }
    }

    /// The look-at view matrix of the current state: eye at the position,
    /// target one front vector ahead, world up.  `None` only when the view
    /// points straight up or down.
    pub fn view_matrix(&self) -> (r: Option<crate::mat4::Mat4>)
        requires
            self.wf(),
        ensures
            (r is Some) == (crate::mat4::spec_look_at(self.position@, self.front@) is Some),
            r matches Some(m) ==> {
                &&& Some(m@) == crate::mat4::spec_look_at(self.position@, self.front@)
                &&& crate::mat4::m4_within(m@, crate::mat4::VIEW_ENTRY_LIMIT as int)
            },
    {
        proof {
            lemma_unit_comp_bound(self.front@);
        }
        crate::mat4::look_at(&self.position, &self.front)
    }

    /// Move the stored pointer reference (the render loop re-centers the
    /// system pointer after each sample and records the center here).
    pub fn set_mouse_anchor(&mut self, x: i32, y: i32)
        ensures
            final(self).mouse.last_x == x,
            final(self).mouse.last_y == y,
            final(self).mouse.first_move == old(self).mouse.first_move,
            final(self).position == old(self).position,
            final(self).front == old(self).front,
            final(self).yaw == old(self).yaw,
            final(self).pitch == old(self).pitch,
    {
        self.mouse = MouseTracking { last_x: x, last_y: y, first_move: self.mouse.first_move };
    }
}

/// Scale a direction vector by a movement speed, dividing out the extra
/// fixed-point factor.
fn scale_by_speed(v: &Vec3, speed: i64) -> (r: Vec3)
    requires
        within(v@, COMP_LIMIT as int),
        0 <= speed <= SPEED_MAX,
    ensures
        r@ == spec_scale(v@, speed as int),
        within(r@, 2 * (SPEED_MAX as int)),
{
    proof {
        lemma_speed_product(v@.x, speed as int);
        lemma_speed_product(v@.y, speed as int);
        lemma_speed_product(v@.z, speed as int);
    }
    Vec3 {
        x: div_fx(v.x * speed, SCALE),
        y: div_fx(v.y * speed, SCALE),
        z: div_fx(v.z * speed, SCALE),
    }
}

/// Bounds for one scaled component: the raw product and its quotient by
/// `SCALE` both stay in range.
proof fn lemma_speed_product(c: int, speed: int)
    requires
        -(COMP_LIMIT as int) <= c <= COMP_LIMIT as int,
        0 <= speed <= SPEED_MAX as int,
    ensures
        -(2 * (SPEED_MAX as int) * (SCALE as int)) <= c * speed
            <= 2 * (SPEED_MAX as int) * (SCALE as int),
        -(2 * (SPEED_MAX as int)) <= sdiv(c * speed, SCALE as int) <= 2 * (SPEED_MAX as int),
{
    assert(-(2 * (SPEED_MAX as int) * (SCALE as int)) <= c * speed
        <= 2 * (SPEED_MAX as int) * (SCALE as int)) by (nonlinear_arith)
        requires
            -(COMP_LIMIT as int) <= c <= COMP_LIMIT as int,
            0 <= speed <= SPEED_MAX as int,
            COMP_LIMIT == 2_000_000,
            SPEED_MAX == 1_000_000_000_000,
            SCALE == 1_000_000;
    lemma_sdiv_bound(c * speed, SCALE as int, 2 * (SPEED_MAX as int));
}

/// The opposite movement key.
pub open spec fn spec_opposite(dir: Direction) -> Direction {
    match dir {
        Direction::Forward => Direction::Backward,
        Direction::Backward => Direction::Forward,
        Direction::Left => Direction::Right,
        Direction::Right => Direction::Left,
    }
}

/// Law: opposite movement keys displace by exactly opposite vectors.
pub proof fn lemma_opposite_delta(front: V3, dir: Direction, speed: int)
    ensures
        spec_move_delta(front, spec_opposite(dir), speed)
            == spec_neg(spec_move_delta(front, dir, speed)),
{
}

/// Law: a movement step followed by the opposite step with the same speed
/// returns the position to its prior value, whenever the first step stays
/// within the position box.
pub proof fn lemma_movement_round_trip(pos: V3, front: V3, dir: Direction, speed: int)
    requires
        in_box(pos),
        in_box({
            let d = spec_move_delta(front, dir, speed);
            V3 { x: pos.x + d.x, y: pos.y + d.y, z: pos.z + d.z }
        }),
    ensures
        spec_step_position(
            spec_step_position(pos, front, dir, speed), front, spec_opposite(dir), speed)
            == pos,
{
    lemma_opposite_delta(front, dir, speed);
}

/// Law: the pitch of a well-formed camera never exceeds the vertical
/// limits.
pub proof fn lemma_pitch_clamped(c: CameraController)
    requires
        c.wf(),
    ensures
        -PITCH_LIMIT <= c.pitch <= PITCH_LIMIT,
{
}

/// Law: the front vector of a well-formed camera is unit length up to the
/// accepted tolerance.
pub proof fn lemma_front_unit_length(c: CameraController)
    requires
        c.wf(),
    ensures
        UNIT_NORM_SQ_LO <= spec_norm_sq(c.front@) <= UNIT_NORM_SQ_HI,
{
}

} // verus!
