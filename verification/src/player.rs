//! Player locomotion and camera state, updated once per simulation tick.
//!
//! The tick pipeline runs its stages in a fixed order: the mouse aggregator
//! smooths the pointer input, camera orientation turns the facing and
//! pitches the camera, the locomotion controller accelerates or decays the
//! desired velocity, and the kinematic integrator applies gravity or the
//! grounded clamp and emits the translation request for the host engine's
//! character controller. After the engine resolves collisions, its grounded
//! flag is copied back for the next tick.

use vstd::prelude::*;
use crate::math::{
    abs_val, clamp_len_spec, clamp_spec, lemma_square_nonneg, lemma_tdiv_strict_decay, mul_div,
    sqrt_floor, tdiv, isqrt, MilliVec2, MilliVec3, SCALE,
};
use vstd::arithmetic::div_mod::{
    lemma_div_by_multiple, lemma_div_denominator, lemma_div_is_ordered, lemma_div_multiples_vanish,
    lemma_div_pos_is_pos, lemma_fundamental_div_mod, lemma_fundamental_div_mod_converse,
};
use vstd::arithmetic::mul::{
    lemma_mul_inequality, lemma_mul_is_commutative, lemma_mul_unary_negation,
    lemma_mul_upper_bound,
};

verus! {

/// Fraction of the previous average kept each tick by the exponential
/// moving average (the smoothing factor is 0.05, so 0.95 is kept).
pub const SMOOTHING_KEEP: i64 = 950;

/// Fraction of the fresh sample blended in each tick (0.05).
pub const SMOOTHING_BLEND: i64 = 50;

/// Largest smoothed speed or smoothed velocity component the aggregator
/// state may hold; a machine bound well past any reachable value.
pub const AVERAGE_LIMIT: i64 = 2_000_000_000;

/// Largest pointer delta component accepted for one tick, in thousandths
/// of a pointer count (one million counts).
pub const POINTER_DELTA_LIMIT: i64 = 1_000_000_000;

/// Marker for the player entity.
#[derive(Clone, Copy, PartialEq, Eq, Structural, Debug)]
pub struct Player;

/// Smoothed recent pointer activity, written once per tick by the mouse
/// aggregator and read by the locomotion controller.
#[derive(Clone, Copy, PartialEq, Eq, Structural, Debug)]
pub struct MouseMovement {
    /// Averaged speed value, roughly how quickly the mouse is moving around.
    pub average_speed: i64,
    /// Averaged velocity vector, roughly the overall mouse movement.
    pub average_velocity: MilliVec2,
}

impl MouseMovement {
    /// State bounds: the smoothed speed is non-negative and every stored
    /// quantity stays within the machine bound.
    pub open spec fn wf(self) -> bool {
        &&& 0 <= self.average_speed <= AVERAGE_LIMIT
        &&& abs_val(self.average_velocity.x as int) <= AVERAGE_LIMIT as int
        &&& abs_val(self.average_velocity.y as int) <= AVERAGE_LIMIT as int
    }
}

impl Default for MouseMovement {
    /// A fresh aggregator has seen no pointer motion at all.
    fn default() -> (r: MouseMovement)
        ensures
            r == (MouseMovement { average_speed: 0, average_velocity: MilliVec2 { x: 0, y: 0 } }),
            r.wf(),
    {
        MouseMovement { average_speed: 0, average_velocity: MilliVec2 { x: 0, y: 0 } }
    }
}

/// One step of the exponential moving average on a single quantity:
/// keep 0.95 of the average and blend in 0.05 of the sample, each product
/// rescaled with truncation toward zero.
pub open spec fn ema_step(average: int, sample: int) -> int {
    tdiv(average * SMOOTHING_KEEP, SCALE as int) + tdiv(sample * SMOOTHING_BLEND, SCALE as int)
}

/// The mouse aggregator's whole effect on its state for one tick: the
/// summed pointer delta updates the smoothed velocity componentwise and the
/// delta's length updates the smoothed speed.
pub open spec fn mouse_update_spec(m: MouseMovement, delta: MilliVec2) -> MouseMovement {
    MouseMovement {
        average_speed: ema_step(m.average_speed as int, sqrt_floor(delta.mag2())) as i64,
        average_velocity: MilliVec2 {
            x: ema_step(m.average_velocity.x as int, delta.x as int) as i64,
            y: ema_step(m.average_velocity.y as int, delta.y as int) as i64,
        },
    }
}

/// The blended 0.05 share of a sample keeps the sample's sign and never
/// exceeds a twentieth of its magnitude (so the new average stays bounded).
proof fn lemma_ema_step_bounds(average: int, sample: int, avg_bound: int, sample_bound: int)
    requires
        0 <= avg_bound,
        0 <= sample_bound,
        abs_val(average) <= avg_bound,
        abs_val(sample) <= sample_bound,
    ensures
        abs_val(ema_step(average, sample)) * (SCALE as int) <= avg_bound * SMOOTHING_KEEP
            + sample_bound * SMOOTHING_BLEND,
        0 <= average && 0 <= sample ==> 0 <= ema_step(average, sample),
{
    crate::math::lemma_tdiv_mag(average * SMOOTHING_KEEP, SCALE as int);
    crate::math::lemma_tdiv_mag(sample * SMOOTHING_BLEND, SCALE as int);
    let ka = tdiv(average * SMOOTHING_KEEP, SCALE as int);
    let bs = tdiv(sample * SMOOTHING_BLEND, SCALE as int);
    assert(abs_val(average * SMOOTHING_KEEP) <= avg_bound * SMOOTHING_KEEP) by (nonlinear_arith)
        requires
            abs_val(average) <= avg_bound,
            0 <= avg_bound,
    ;
    assert(abs_val(sample * SMOOTHING_BLEND) <= sample_bound * SMOOTHING_BLEND)
        by (nonlinear_arith)
        requires
            abs_val(sample) <= sample_bound,
            0 <= sample_bound,
    ;
    assert(abs_val(ka + bs) * (SCALE as int) <= avg_bound * SMOOTHING_KEEP + sample_bound
        * SMOOTHING_BLEND) by (nonlinear_arith)
        requires
            abs_val(ka) * (SCALE as int) <= abs_val(average * SMOOTHING_KEEP),
            abs_val(bs) * (SCALE as int) <= abs_val(sample * SMOOTHING_BLEND),
            abs_val(average * SMOOTHING_KEEP) <= avg_bound * SMOOTHING_KEEP,
            abs_val(sample * SMOOTHING_BLEND) <= sample_bound * SMOOTHING_BLEND,
    ;
    if 0 <= average && 0 <= sample {
        assert(0 <= average * SMOOTHING_KEEP) by (nonlinear_arith)
            requires
                0 <= average,
        ;
        assert(0 <= sample * SMOOTHING_BLEND) by (nonlinear_arith)
            requires
                0 <= sample,
        ;
    }
}

/// Mouse aggregator stage: folds the tick's summed pointer delta into the
/// exponentially smoothed speed and velocity. With no pointer events the
/// state simply decays toward zero; there are no error conditions.
pub fn process_mouse_movement(stats: &mut MouseMovement, delta: MilliVec2)
    requires
        old(stats).wf(),
        abs_val(delta.x as int) <= POINTER_DELTA_LIMIT as int,
        abs_val(delta.y as int) <= POINTER_DELTA_LIMIT as int,
    ensures
        *final(stats) == mouse_update_spec(*old(stats), delta),
        final(stats).wf(),
{
    let m2: u64 = delta.length_squared();
    let sample_u: u64 = isqrt(m2);
    proof {
        lemma_square_nonneg(delta.x as int);
        lemma_square_nonneg(delta.y as int);
        assert(delta.mag2() <= 2_000_000_000_000_000_000int) by (nonlinear_arith)
            requires
                abs_val(delta.x as int) <= 1_000_000_000int,
                abs_val(delta.y as int) <= 1_000_000_000int,
        ;
        assert(sample_u as int <= 1_500_000_000int) by (nonlinear_arith)
            requires
                0 <= sample_u as int,
                sample_u as int * (sample_u as int) <= m2 as int,
                m2 as int <= 2_000_000_000_000_000_000int,
        ;
        lemma_ema_step_bounds(
            old(stats).average_speed as int,
            sample_u as int,
            AVERAGE_LIMIT as int,
            1_500_000_000int,
        );
        lemma_ema_step_bounds(
            old(stats).average_velocity.x as int,
            delta.x as int,
            AVERAGE_LIMIT as int,
            POINTER_DELTA_LIMIT as int,
        );
        lemma_ema_step_bounds(
            old(stats).average_velocity.y as int,
            delta.y as int,
            AVERAGE_LIMIT as int,
            POINTER_DELTA_LIMIT as int,
        );
    }
    let sample: i64 = sample_u as i64;
    let new_speed: i64 = mul_div(stats.average_speed, 950, 1000) + mul_div(sample, 50, 1000);
    let new_x: i64 = mul_div(stats.average_velocity.x, 950, 1000) + mul_div(delta.x, 50, 1000);
    let new_y: i64 = mul_div(stats.average_velocity.y, 950, 1000) + mul_div(delta.y, 50, 1000);
    stats.average_speed = new_speed;
    stats.average_velocity = MilliVec2 { x: new_x, y: new_y };
}

/// The aggregator state after a run of ticks in which no pointer event at
/// all arrived (each tick's summed delta is the zero vector).
pub open spec fn mouse_idle_iter(m: MouseMovement, n: nat) -> MouseMovement
    decreases n,
{
    if n == 0 {
        m
    } else {
        mouse_idle_iter(mouse_update_spec(m, MilliVec2 { x: 0, y: 0 }), (n - 1) as nat)
    }
}

/// One idle tick shrinks every smoothed quantity: magnitudes never grow,
/// fall strictly while they are not zero yet, and zero stays zero.
proof fn lemma_mouse_idle_step(m: MouseMovement)
    requires
        m.wf(),
    ensures
        ({
            let m1 = mouse_update_spec(m, MilliVec2 { x: 0, y: 0 });
            &&& m1.wf()
            &&& 0 <= m1.average_speed <= m.average_speed
            &&& (m.average_speed > 0 ==> m1.average_speed < m.average_speed)
            &&& abs_val(m1.average_velocity.x as int) <= abs_val(m.average_velocity.x as int)
            &&& (m.average_velocity.x != 0 ==> abs_val(m1.average_velocity.x as int) < abs_val(
                m.average_velocity.x as int,
            ))
            &&& abs_val(m1.average_velocity.y as int) <= abs_val(m.average_velocity.y as int)
            &&& (m.average_velocity.y != 0 ==> abs_val(m1.average_velocity.y as int) < abs_val(
                m.average_velocity.y as int,
            ))
        }),
{
    let zero = MilliVec2 { x: 0, y: 0 };
    assert(zero.mag2() == 0);
    assert(sqrt_floor(0) == 0);
    lemma_idle_component_step(m.average_speed as int);
    lemma_idle_component_step(m.average_velocity.x as int);
    lemma_idle_component_step(m.average_velocity.y as int);
}

/// One idle tick on a single smoothed quantity: the blended share of a
/// zero sample vanishes and the kept share shrinks the magnitude.
proof fn lemma_idle_component_step(v: int)
    ensures
        ema_step(v, 0) == tdiv(v * SMOOTHING_KEEP, SCALE as int),
        abs_val(ema_step(v, 0)) <= abs_val(v),
        v != 0 ==> abs_val(ema_step(v, 0)) < abs_val(v),
        v > 0 ==> 0 <= ema_step(v, 0) < v,
        v == 0 ==> ema_step(v, 0) == 0,
{
    assert(tdiv(0 * SMOOTHING_BLEND, SCALE as int) == 0);
    if v > 0 {
        lemma_tdiv_strict_decay(v, SMOOTHING_KEEP as int, SCALE as int);
    } else if v < 0 {
        lemma_mul_unary_negation(v, SMOOTHING_KEEP as int);
        lemma_tdiv_strict_decay(-v, SMOOTHING_KEEP as int, SCALE as int);
        assert(v * SMOOTHING_KEEP == -((-v) * SMOOTHING_KEEP));
        assert(ema_step(v, 0) == -tdiv((-v) * SMOOTHING_KEEP, SCALE as int));
    } else {
        assert(v * SMOOTHING_KEEP == 0) by (nonlinear_arith)
            requires
                v == 0,
        ;
    }
}

/// With zero pointer events for consecutive ticks, the smoothed speed and
/// both components of the smoothed velocity decay monotonically toward
/// zero: magnitudes never grow from one tick to the next, the speed falls
/// strictly while positive, and each quantity has reached exactly zero
/// after at most as many idle ticks as the magnitude it started from.
pub proof fn lemma_mouse_idle_decay(m: MouseMovement, n: nat)
    requires
        m.wf(),
    ensures
        mouse_idle_iter(m, n).wf(),
        mouse_idle_iter(m, n + 1).average_speed <= mouse_idle_iter(m, n).average_speed,
        mouse_idle_iter(m, n).average_speed > 0 ==> mouse_idle_iter(m, n + 1).average_speed
            < mouse_idle_iter(m, n).average_speed,
        abs_val(mouse_idle_iter(m, n + 1).average_velocity.x as int) <= abs_val(
            mouse_idle_iter(m, n).average_velocity.x as int,
        ),
        abs_val(mouse_idle_iter(m, n + 1).average_velocity.y as int) <= abs_val(
            mouse_idle_iter(m, n).average_velocity.y as int,
        ),
        n >= m.average_speed ==> mouse_idle_iter(m, n).average_speed == 0,
        n >= abs_val(m.average_velocity.x as int) ==> mouse_idle_iter(m, n).average_velocity.x
            == 0,
        n >= abs_val(m.average_velocity.y as int) ==> mouse_idle_iter(m, n).average_velocity.y
            == 0,
    decreases n,
{
    lemma_mouse_idle_step(m);
    let m1 = mouse_update_spec(m, MilliVec2 { x: 0, y: 0 });
    if n == 0 {
        assert(mouse_idle_iter(m, 1) == mouse_idle_iter(m1, 0));
    } else {
        lemma_mouse_idle_decay(m1, (n - 1) as nat);
        assert(mouse_idle_iter(m, n) == mouse_idle_iter(m1, (n - 1) as nat));
        assert(mouse_idle_iter(m, n + 1) == mouse_idle_iter(m1, n));
    }
}

/// A full turn, in thousandths of a radian (2π).
pub const TWO_PI_MILLI: i64 = 6283;

/// A quarter turn, in thousandths of a radian (π/2); the pitch bound.
pub const HALF_PI_MILLI: i64 = 1571;

/// Squared angular step, in squared thousandths of a radian, below which a
/// pointer delta is jitter and produces no rotation at all.
pub const DEAD_ZONE_MAG2: i64 = 10;

/// Heading of the player's transform about its local up axis, measured
/// counterclockwise in thousandths of a radian and kept in `[0, 2π)`.
#[derive(Clone, Copy, PartialEq, Eq, Structural, Debug)]
pub struct PlayerFacing {
    pub yaw: i64,
}

impl PlayerFacing {
    /// The heading is a normalized angle.
    pub open spec fn wf(self) -> bool {
        0 <= self.yaw < TWO_PI_MILLI
    }
}

impl Default for PlayerFacing {
    /// A freshly spawned player looks along the world forward axis.
    fn default() -> (r: PlayerFacing)
        ensures
            r == (PlayerFacing { yaw: 0 }),
            r.wf(),
    {
        PlayerFacing { yaw: 0 }
    }
}

/// Pitch of the camera attached to the player, in thousandths of a radian,
/// always between -π/2 and π/2. The camera's local rotation is rebuilt from
/// this absolute value each tick, never accumulated, so it cannot drift.
#[derive(Clone, Copy, PartialEq, Eq, Structural, Debug)]
pub struct PlayerCamera {
    /// Angle between -π/2 and π/2 measuring the pitch of the camera.
    pub pitch: i64,
}

impl PlayerCamera {
    /// The pitch stays within a quarter turn of level.
    pub open spec fn wf(self) -> bool {
        -HALF_PI_MILLI <= self.pitch <= HALF_PI_MILLI
    }
}

impl Default for PlayerCamera {
    /// A freshly rigged camera looks level.
    fn default() -> (r: PlayerCamera)
        ensures
            r == (PlayerCamera { pitch: 0 }),
            r.wf(),
    {
        PlayerCamera { pitch: 0 }
    }
}

/// An angle folded into `[0, 2π)`; spec-mode `%` is Euclidean, which is
/// exactly this folding.
pub open spec fn wrap_angle_spec(a: int) -> int {
    a % (TWO_PI_MILLI as int)
}

/// Folds an angle into `[0, 2π)`.
pub fn wrap_angle(a: i64) -> (r: i64)
    requires
        abs_val(a as int) <= 2_000_000_000,
    ensures
        r as int == wrap_angle_spec(a as int),
        0 <= r < TWO_PI_MILLI,
{
    let m: u64 = TWO_PI_MILLI as u64;
    if a >= 0 {
        let r: u64 = (a as u64) % m;
        r as i64
    } else {
        let k: u64 = ((-a) as u64) % m;
        proof {
            lemma_fundamental_div_mod(-(a as int), TWO_PI_MILLI as int);
            if k == 0 {
                lemma_fundamental_div_mod_converse(
                    a as int,
                    TWO_PI_MILLI as int,
                    -((-(a as int)) / (TWO_PI_MILLI as int)),
                    0,
                );
            } else {
                lemma_fundamental_div_mod_converse(
                    a as int,
                    TWO_PI_MILLI as int,
                    -((-(a as int)) / (TWO_PI_MILLI as int)) - 1,
                    TWO_PI_MILLI as int - k as int,
                );
            }
        }
        if k == 0 {
            0
        } else {
            TWO_PI_MILLI - (k as i64)
        }
    }
}

/// Camera orientation for one tick: the pointer delta, scaled by the
/// sensitivity, turns the facing (pointer right turns the facing left, the
/// prototype's sign convention) and tilts the camera, with the pitch
/// clamped to `[-π/2, π/2]`; a delta inside the dead zone changes nothing.
pub open spec fn rotate_update_spec(
    facing: PlayerFacing,
    camera: PlayerCamera,
    delta: MilliVec2,
    sensitivity: int,
) -> (PlayerFacing, PlayerCamera) {
    let ax = tdiv(delta.x * sensitivity, SCALE as int);
    let ay = tdiv(-delta.y * sensitivity, SCALE as int);
    if ax * ax + ay * ay > DEAD_ZONE_MAG2 {
        (
            PlayerFacing { yaw: wrap_angle_spec(facing.yaw - ax) as i64 },
            PlayerCamera {
                pitch: clamp_spec(
                    camera.pitch + ay,
                    -HALF_PI_MILLI as int,
                    HALF_PI_MILLI as int,
                ) as i64,
            },
        )
    } else {
        (facing, camera)
    }
}

/// Camera orientation stage. The pitch never leaves `[-π/2, π/2]`, however
/// large the pointer delta of the tick was.
pub fn rotate_player(
    facing: &mut PlayerFacing,
    camera: &mut PlayerCamera,
    delta: MilliVec2,
    sensitivity: i64,
)
    requires
        old(facing).wf(),
        old(camera).wf(),
        abs_val(delta.x as int) <= POINTER_DELTA_LIMIT as int,
        abs_val(delta.y as int) <= POINTER_DELTA_LIMIT as int,
        0 <= sensitivity <= crate::input::SENSITIVITY_MAX,
    ensures
        (*final(facing), *final(camera)) == rotate_update_spec(
            *old(facing),
            *old(camera),
            delta,
            sensitivity as int,
        ),
        final(facing).wf(),
        final(camera).wf(),
        -HALF_PI_MILLI <= final(camera).pitch <= HALF_PI_MILLI,
{
    proof {
        lemma_mul_upper_bound(
            abs_val(delta.x as int),
            POINTER_DELTA_LIMIT as int,
            sensitivity as int,
            crate::input::SENSITIVITY_MAX as int,
        );
        lemma_mul_upper_bound(
            abs_val(delta.y as int),
            POINTER_DELTA_LIMIT as int,
            sensitivity as int,
            crate::input::SENSITIVITY_MAX as int,
        );
    }
    let ax: i64 = mul_div(delta.x, sensitivity as u64, 1000);
    let ay: i64 = mul_div(-delta.y, sensitivity as u64, 1000);
    let step = MilliVec2 { x: ax, y: ay };
    let m2: u64 = step.length_squared();
    if m2 > DEAD_ZONE_MAG2 as u64 {
        facing.yaw = wrap_angle(facing.yaw - ax);
        let tilted: i64 = camera.pitch + ay;
        camera.pitch = if tilted < -HALF_PI_MILLI {
            -HALF_PI_MILLI
        } else if tilted > HALF_PI_MILLI {
            HALF_PI_MILLI
        } else {
            tilted
        };
    }
}

/// Steepest acceleration of the ramp, in thousandths of a metre per second
/// squared (15 m/s²), reached when the camera looks straight up.
pub const MAX_ACCELERATION: i64 = 15_000;

/// Acceleration of the ramp at level pitch (3 m/s²).
pub const MIN_ACCELERATION: i64 = 3_000;

/// The smoothed pointer speed must exceed `dt * MIN_SPEED_FACTOR` (300
/// counts per second) for circling to count as deliberate.
pub const MIN_SPEED_FACTOR: i64 = 300;

/// Floor put under `time_accelerating` when acceleration begins (0.5 s).
pub const MIN_TIME_ACCELERATING: i64 = 500;

/// Multiplicative decay of `time_accelerating` per idle tick (0.9).
pub const TIME_DECAY: i64 = 900;

/// Multiplicative decay of the desired velocity per idle tick (0.95).
pub const VELOCITY_DECAY: i64 = 950;

/// Cap on `time_accelerating`, a machine bound (about 28 hours of
/// uninterrupted acceleration) far past anything a session reaches.
pub const TIME_LIMIT: i64 = 100_000_000;

/// Largest tick duration accepted (10 s).
pub const DT_LIMIT: i64 = 10_000;

/// Machine bound on every stored velocity component.
pub const SPEED_LIMIT: i64 = 2_000_000_000;

/// Length of a unit direction vector in fixed-point thousandths.
pub const FORWARD_UNIT: i64 = 1000;

/// Gravitational acceleration (9.81 m/s²).
pub const GRAVITY: i64 = 9_810;

/// Small upward velocity given to a grounded player who would otherwise
/// keep falling (0.01 m/s), so the controller does not oscillate between
/// "grounded" and "still falling".
pub const GROUND_EPSILON: i64 = 10;

/// All game-logic information (input and kinematics) about player
/// movement.
#[derive(Clone, Copy, PartialEq, Eq, Structural, Debug)]
pub struct PlayerMovement {
    /// How long we have been accelerating; determines max speed among
    /// other things.
    pub time_accelerating: i64,
    /// Velocity vector the player is trying to move at.
    pub desired_velocity: MilliVec3,
    /// Whether the physics engine said we are touching ground.
    pub grounded: bool,
    /// Whether the velocity vector should be locked from being changed by
    /// inputs.
    pub locked_velocity: bool,
}

impl PlayerMovement {
    /// State bounds: the ramp time is a bounded non-negative duration and
    /// the velocity components stay within the machine bound.
    pub open spec fn wf(self) -> bool {
        &&& 0 <= self.time_accelerating <= TIME_LIMIT
        &&& self.desired_velocity.in_bounds(SPEED_LIMIT as int)
    }
}

impl Default for PlayerMovement {
    /// A freshly spawned player is at rest, airborne and unlocked.
    fn default() -> (r: PlayerMovement)
        ensures
            r == (PlayerMovement {
                time_accelerating: 0,
                desired_velocity: MilliVec3 { x: 0, y: 0, z: 0 },
                grounded: false,
                locked_velocity: false,
            }),
            r.wf(),
    {
        PlayerMovement {
            time_accelerating: 0,
            desired_velocity: MilliVec3 { x: 0, y: 0, z: 0 },
            grounded: false,
            locked_velocity: false,
        }
    }
}

/// The speed the ramp allows after accelerating for `t`:
/// `t * MAX_ACCELERATION`, rescaled.
pub open spec fn speed_cap(t: int) -> int {
    tdiv(t * MAX_ACCELERATION, SCALE as int)
}

/// For a non-negative ramp time the cap is exactly linear: 15 thousandths
/// of a metre per second for every thousandth of a second.
pub proof fn lemma_speed_cap_linear(t: int)
    requires
        t >= 0,
    ensures
        speed_cap(t) == 15 * t,
{
    assert(t * 15000 == (15 * t) * 1000) by (nonlinear_arith);
    lemma_div_by_multiple(15 * t, 1000);
}

/// The circling-intensity heuristic: the smoothed pointer speed exceeds the
/// magnitude of the smoothed pointer velocity (deliberate circling piles up
/// speed without net displacement, a directional flick does not) and also
/// exceeds the minimum speed for the tick. Both sides of the first
/// comparison are squared, which for a non-negative speed is the same
/// comparison with no square root taken.
pub open spec fn intensity_spec(m: MouseMovement, min_speed: int) -> bool {
    &&& m.average_speed * m.average_speed > m.average_velocity.mag2()
    &&& m.average_speed > min_speed
}

/// Decides whether the mouse is being circled hard enough to accelerate.
pub fn is_accelerating(mouse: &MouseMovement, min_speed: i64) -> (r: bool)
    requires
        mouse.wf(),
    ensures
        r == intensity_spec(*mouse, min_speed as int),
{
    proof {
        lemma_mul_upper_bound(
            mouse.average_speed as int,
            AVERAGE_LIMIT as int,
            mouse.average_speed as int,
            AVERAGE_LIMIT as int,
        );
        assert(2_000_000_000int * 2_000_000_000int == 4_000_000_000_000_000_000int)
            by (nonlinear_arith);
    }
    let speed_sq: u64 = (mouse.average_speed as u64) * (mouse.average_speed as u64);
    let vel_sq: u64 = mouse.average_velocity.length_squared();
    speed_sq > vel_sq && mouse.average_speed > min_speed
}

/// A direction scaled by a fixed-point factor, componentwise.
pub open spec fn scaled_dir(dir: MilliVec3, amount: int) -> MilliVec3 {
    MilliVec3 {
        x: tdiv(dir.x * amount, SCALE as int) as i64,
        y: tdiv(dir.y * amount, SCALE as int) as i64,
        z: tdiv(dir.z * amount, SCALE as int) as i64,
    }
}

/// Componentwise vector sum.
pub open spec fn vec3_sum(a: MilliVec3, b: MilliVec3) -> MilliVec3 {
    MilliVec3 {
        x: (a.x + b.x) as i64,
        y: (a.y + b.y) as i64,
        z: (a.z + b.z) as i64,
    }
}

/// Adds `dir * amount / SCALE` to `v`; the push the acceleration ramp
/// gives along the facing direction.
fn add_scaled(v: MilliVec3, dir: MilliVec3, amount: i64) -> (r: MilliVec3)
    requires
        v.in_bounds(SPEED_LIMIT as int + 100_000),
        dir.in_bounds(FORWARD_UNIT as int),
        0 <= amount <= 100_000,
    ensures
        r == vec3_sum(v, scaled_dir(dir, amount as int)),
        abs_val(r.x as int) <= abs_val(v.x as int) + amount,
        abs_val(r.y as int) <= abs_val(v.y as int) + amount,
        abs_val(r.z as int) <= abs_val(v.z as int) + amount,
{
    proof {
        lemma_mul_inequality(abs_val(dir.x as int), FORWARD_UNIT as int, amount as int);
        lemma_mul_inequality(abs_val(dir.y as int), FORWARD_UNIT as int, amount as int);
        lemma_mul_inequality(abs_val(dir.z as int), FORWARD_UNIT as int, amount as int);
    }
    MilliVec3 {
        x: v.x + mul_div(dir.x, amount as u64, 1000),
        y: v.y + mul_div(dir.y, amount as u64, 1000),
        z: v.z + mul_div(dir.z, amount as u64, 1000),
    }
}

/// The acceleration the ramp delivers for a camera pitch: a linear
/// interpolation between [`MIN_ACCELERATION`] at pitch `0` and
/// [`MAX_ACCELERATION`] at a quarter turn up — looking up accelerates
/// harder, looking straight down gives no push at all.
pub open spec fn acceleration_of_pitch(pitch: int) -> int {
    let t = tdiv(pitch * SCALE, TWO_PI_MILLI as int);
    tdiv(MAX_ACCELERATION * t + MIN_ACCELERATION * (SCALE - t), SCALE as int)
}

/// Computes the pitch-dependent acceleration of the ramp.
pub fn acceleration_for(pitch: i64) -> (r: i64)
    requires
        -HALF_PI_MILLI <= pitch <= HALF_PI_MILLI,
    ensures
        r as int == acceleration_of_pitch(pitch as int),
        0 <= r <= 6_000,
{
    let t: i64 = mul_div(pitch, 1000, 6283);
    proof {
        lemma_div_is_ordered(abs_val(pitch as int) * 1000, 1_571_000int, 6283int);
    }
    let num: i64 = MAX_ACCELERATION * t + MIN_ACCELERATION * (1000 - t);
    proof {
        assert(num >= 0);
        assert(num <= 6_000_000);
    }
    let r: i64 = ((num as u64) / 1000) as i64;
    proof {
        lemma_div_is_ordered(num as int, 6_000_000int, 1000int);
        lemma_div_pos_is_pos(num as int, 1000int);
    }
    r
}

/// One accelerating tick: when the ramp is only starting, the ramp time is
/// floored at [`MIN_TIME_ACCELERATING`] and an impulse of
/// `MIN_TIME_ACCELERATING * accel` is given along the facing; then the
/// ramp time grows by `dt` (saturating at the machine bound
/// [`TIME_LIMIT`]), the velocity gains `forward * dt * accel`, and the
/// result is clamped to the ramp's speed cap.
pub open spec fn accelerating_update(
    p: PlayerMovement,
    accel: int,
    forward: MilliVec3,
    dt: int,
) -> PlayerMovement {
    let boosted = if p.time_accelerating < MIN_TIME_ACCELERATING {
        PlayerMovement {
            time_accelerating: MIN_TIME_ACCELERATING,
            desired_velocity: vec3_sum(
                p.desired_velocity,
                scaled_dir(forward, tdiv(MIN_TIME_ACCELERATING * accel, SCALE as int)),
            ),
            ..p
        }
    } else {
        p
    };
    let t1 = if boosted.time_accelerating + dt <= TIME_LIMIT {
        boosted.time_accelerating + dt
    } else {
        TIME_LIMIT as int
    };
    let v1 = vec3_sum(boosted.desired_velocity, scaled_dir(forward, tdiv(dt * accel, SCALE as int)));
    PlayerMovement {
        time_accelerating: t1 as i64,
        desired_velocity: clamp_len_spec(v1, speed_cap(t1)),
        ..p
    }
}

/// One decaying tick, the canonical decay law of this crate: the ramp time
/// shrinks to 0.9 of itself, the velocity to 0.95 of itself, and the
/// velocity is then re-clamped to the shrunken ramp's speed cap, so the
/// ramp invariant survives the decay.
pub open spec fn decaying_update(p: PlayerMovement) -> PlayerMovement {
    let t1 = tdiv(p.time_accelerating * TIME_DECAY, SCALE as int);
    let v1 = MilliVec3 {
        x: tdiv(p.desired_velocity.x * VELOCITY_DECAY, SCALE as int) as i64,
        y: tdiv(p.desired_velocity.y * VELOCITY_DECAY, SCALE as int) as i64,
        z: tdiv(p.desired_velocity.z * VELOCITY_DECAY, SCALE as int) as i64,
    };
    PlayerMovement {
        time_accelerating: t1 as i64,
        desired_velocity: clamp_len_spec(v1, speed_cap(t1)),
        ..p
    }
}

/// The locomotion controller's whole effect for one tick: accelerate along
/// the facing when the intensity heuristic holds, decay otherwise.
pub open spec fn locomotion_update_spec(
    p: PlayerMovement,
    pitch: int,
    forward: MilliVec3,
    mouse: MouseMovement,
    dt: int,
) -> PlayerMovement {
    if intensity_spec(mouse, dt * MIN_SPEED_FACTOR) {
        accelerating_update(p, acceleration_of_pitch(pitch), forward, dt)
    } else {
        decaying_update(p)
    }
}

/// Locomotion controller stage. Whatever the inputs, the new desired
/// velocity obeys the ramp bound: its squared length never exceeds the
/// square of `speed_cap(time_accelerating)` — the fixed-point form of
/// `|desired_velocity| <= time_accelerating * max_acceleration`.
pub fn player_move_input(
    player: &mut PlayerMovement,
    camera: &PlayerCamera,
    forward: MilliVec3,
    mouse: &MouseMovement,
    dt: i64,
)
    requires
        old(player).wf(),
        camera.wf(),
        mouse.wf(),
        forward.in_bounds(FORWARD_UNIT as int),
        0 < dt <= DT_LIMIT,
    ensures
        *final(player) == locomotion_update_spec(
            *old(player),
            camera.pitch as int,
            forward,
            *mouse,
            dt as int,
        ),
        final(player).wf(),
        final(player).desired_velocity.mag2() <= speed_cap(final(player).time_accelerating as int)
            * speed_cap(final(player).time_accelerating as int),
{
    let accel: i64 = acceleration_for(camera.pitch);
    proof {
        lemma_mul_upper_bound(dt as int, DT_LIMIT as int, accel as int, 6_000int);
        lemma_mul_upper_bound(500int, 500int, accel as int, 6_000int);
    }
    let min_speed: i64 = dt * MIN_SPEED_FACTOR;
    if is_accelerating(mouse, min_speed) {
        if player.time_accelerating < MIN_TIME_ACCELERATING {
            player.time_accelerating = MIN_TIME_ACCELERATING;
            let impulse: i64 = mul_div(MIN_TIME_ACCELERATING, accel as u64, 1000);
            player.desired_velocity = add_scaled(player.desired_velocity, forward, impulse);
        }
        player.time_accelerating = if player.time_accelerating + dt <= TIME_LIMIT {
            player.time_accelerating + dt
        } else {
            TIME_LIMIT
        };
        let push: i64 = mul_div(dt, accel as u64, 1000);
        player.desired_velocity = add_scaled(player.desired_velocity, forward, push);
        let cap: i64 = mul_div(player.time_accelerating, 15000, 1000);
        player.desired_velocity = player.desired_velocity.clamp_length_max(cap);
    } else {
        player.time_accelerating = mul_div(player.time_accelerating, 900, 1000);
        let shrunk = MilliVec3 {
            x: mul_div(player.desired_velocity.x, 950, 1000),
            y: mul_div(player.desired_velocity.y, 950, 1000),
            z: mul_div(player.desired_velocity.z, 950, 1000),
        };
        let cap: i64 = mul_div(player.time_accelerating, 15000, 1000);
        player.desired_velocity = shrunk.clamp_length_max(cap);
    }
}

/// The kinematic integrator's effect on the movement state: a grounded
/// player who would sink gets the small upward [`GROUND_EPSILON`] instead,
/// an airborne player falls by `dt * GRAVITY` (saturating at the machine
/// bound on stored speed).
pub open spec fn kinematics_update_spec(p: PlayerMovement, dt: int) -> PlayerMovement {
    if p.grounded {
        if p.desired_velocity.y <= 0 {
            PlayerMovement {
                desired_velocity: MilliVec3 {
                    x: p.desired_velocity.x,
                    y: GROUND_EPSILON as i64,
                    z: p.desired_velocity.z,
                },
                ..p
            }
        } else {
            p
        }
    } else {
        let fallen = p.desired_velocity.y - tdiv(dt * GRAVITY, SCALE as int);
        let floored = if fallen < -SPEED_LIMIT {
            -SPEED_LIMIT as int
        } else {
            fallen
        };
        PlayerMovement {
            desired_velocity: MilliVec3 {
                x: p.desired_velocity.x,
                y: floored as i64,
                z: p.desired_velocity.z,
            },
            ..p
        }
    }
}

/// Kinematic integrator stage: adjusts the vertical velocity for gravity
/// or ground contact and returns the translation request
/// (`desired_velocity * dt`) to hand to the engine's character controller.
/// Runs strictly before the engine's collision-resolution phase.
pub fn player_kinematics(player: &mut PlayerMovement, dt: i64) -> (translation: MilliVec3)
    requires
        old(player).wf(),
        0 < dt <= DT_LIMIT,
    ensures
        *final(player) == kinematics_update_spec(*old(player), dt as int),
        translation == scaled_dir(final(player).desired_velocity, dt as int),
        final(player).wf(),
{
    if player.grounded {
        if player.desired_velocity.y <= 0 {
            player.desired_velocity = MilliVec3 {
                x: player.desired_velocity.x,
                y: GROUND_EPSILON,
                z: player.desired_velocity.z,
            };
        }
    } else {
        let g: i64 = mul_div(dt, GRAVITY as u64, 1000);
        let fallen: i64 = player.desired_velocity.y - g;
        player.desired_velocity = MilliVec3 {
            x: player.desired_velocity.x,
            y: if fallen < -SPEED_LIMIT {
                -SPEED_LIMIT
            } else {
                fallen
            },
            z: player.desired_velocity.z,
        };
    }
    proof {
        lemma_mul_upper_bound(
            abs_val(player.desired_velocity.x as int),
            SPEED_LIMIT as int,
            dt as int,
            DT_LIMIT as int,
        );
        lemma_mul_upper_bound(
            abs_val(player.desired_velocity.y as int),
            SPEED_LIMIT as int,
            dt as int,
            DT_LIMIT as int,
        );
        lemma_mul_upper_bound(
            abs_val(player.desired_velocity.z as int),
            SPEED_LIMIT as int,
            dt as int,
            DT_LIMIT as int,
        );
    }
    MilliVec3 {
        x: mul_div(player.desired_velocity.x, dt as u64, 1000),
        y: mul_div(player.desired_velocity.y, dt as u64, 1000),
        z: mul_div(player.desired_velocity.z, dt as u64, 1000),
    }
}

/// Quarter-wave cosine: the Taylor polynomial
/// `1 - x²/2 + x⁴/24 - x⁶/720` on `[0, π/2]` in fixed-point thousandths,
/// every division truncating. Accurate to a few thousandths over the
/// quarter turn, which is plenty for a facing direction.
pub open spec fn cos_quarter_spec(x: int) -> int
    recommends
        0 <= x <= HALF_PI_MILLI,
{
    let t2 = x * x;
    let t4 = t2 * t2;
    let t6r = (t4 / 1000) * t2;
    1000 - t2 / 2000 + t4 / 24_000_000_000 - t6r / 720_000_000_000_000
}

/// Cosine over the full turn, folded onto the quarter wave.
pub open spec fn cos_milli_spec(a: int) -> int
    recommends
        0 <= a < TWO_PI_MILLI,
{
    if a <= HALF_PI_MILLI {
        cos_quarter_spec(a)
    } else if a <= 3142 {
        -cos_quarter_spec(3142 - a)
    } else if a <= 4713 {
        -cos_quarter_spec(a - 3142)
    } else {
        cos_quarter_spec(TWO_PI_MILLI - a)
    }
}

/// Sine over the full turn: the cosine a quarter turn behind.
pub open spec fn sin_milli_spec(a: int) -> int
    recommends
        0 <= a < TWO_PI_MILLI,
{
    if a >= HALF_PI_MILLI {
        cos_milli_spec(a - HALF_PI_MILLI)
    } else {
        cos_milli_spec(a + TWO_PI_MILLI - HALF_PI_MILLI)
    }
}

/// The unit facing direction of a heading: the world forward axis (-Z)
/// rotated counterclockwise about the up axis by `yaw`.
pub open spec fn forward_spec(yaw: int) -> MilliVec3 {
    MilliVec3 { x: -sin_milli_spec(yaw) as i64, y: 0, z: -cos_milli_spec(yaw) as i64 }
}

/// Computes the quarter-wave cosine polynomial.
fn cos_quarter(x: i64) -> (r: i64)
    requires
        0 <= x <= HALF_PI_MILLI,
    ensures
        r as int == cos_quarter_spec(x as int),
        -1000 <= r <= 1000,
{
    let xu: u64 = x as u64;
    proof {
        lemma_mul_upper_bound(xu as int, 1571int, xu as int, 1571int);
        assert(1571int * 1571int == 2_468_041int) by (nonlinear_arith);
    }
    let t2: u64 = xu * xu;
    proof {
        lemma_mul_upper_bound(t2 as int, 2_468_041int, t2 as int, 2_468_041int);
        assert(2_468_041int * 2_468_041int == 6_091_226_377_681int) by (nonlinear_arith);
    }
    let t4: u64 = t2 * t2;
    proof {
        lemma_div_is_ordered(t4 as int, 6_091_226_377_681int, 1000int);
        lemma_mul_upper_bound(t4 as int / 1000int, 6_091_226_377int, t2 as int, 2_468_041int);
        assert(6_091_226_377int * 2_468_041int == 15_033_396_438_717_457int)
            by (nonlinear_arith);
    }
    let t6r: u64 = (t4 / 1000) * t2;
    let a: u64 = t2 / 2000;
    let b: u64 = t4 / 24_000_000_000;
    let c: u64 = t6r / 720_000_000_000_000;
    proof {
        lemma_div_is_ordered(t2 as int, 2_468_041int, 2000int);
        lemma_div_is_ordered(t6r as int, 15_033_396_438_717_457int, 720_000_000_000_000int);
        lemma_mul_inequality(t2 as int, 2_468_041int, t2 as int);
        lemma_mul_inequality(t2 as int, 12_000_000int, t2 as int);
        assert(t2 as int * (t2 as int) <= 12_000_000int * (t2 as int)) by (nonlinear_arith)
            requires
                0 <= t2 as int <= 2_468_041int,
        ;
        lemma_div_is_ordered(t4 as int, 12_000_000int * (t2 as int), 24_000_000_000int);
        lemma_breakdown_for_cos(t2 as int);
    }
    1000 - (a as i64) + (b as i64) - (c as i64)
}

/// `t2 * 12_000_000 / 24_000_000_000 == t2 / 2000`: the quartic Taylor
/// term never outweighs the quadratic one on the quarter wave.
proof fn lemma_breakdown_for_cos(t2: int)
    requires
        t2 >= 0,
    ensures
        (12_000_000int * t2) / 24_000_000_000int == t2 / 2000,
        12_000_000int * t2 == t2 * 12_000_000int,
{
    lemma_mul_is_commutative(12_000_000int, t2);
    lemma_div_denominator(12_000_000int * t2, 12_000_000int, 2000int);
    lemma_div_multiples_vanish(t2, 12_000_000int);
}

/// Computes the fixed-point cosine of a normalized angle.
pub fn cos_milli(a: i64) -> (r: i64)
    requires
        0 <= a < TWO_PI_MILLI,
    ensures
        r as int == cos_milli_spec(a as int),
        -1000 <= r <= 1000,
{
    if a <= HALF_PI_MILLI {
        cos_quarter(a)
    } else if a <= 3142 {
        -cos_quarter(3142 - a)
    } else if a <= 4713 {
        -cos_quarter(a - 3142)
    } else {
        cos_quarter(TWO_PI_MILLI - a)
    }
}

/// Computes the fixed-point sine of a normalized angle.
pub fn sin_milli(a: i64) -> (r: i64)
    requires
        0 <= a < TWO_PI_MILLI,
    ensures
        r as int == sin_milli_spec(a as int),
        -1000 <= r <= 1000,
{
    if a >= HALF_PI_MILLI {
        cos_milli(a - HALF_PI_MILLI)
    } else {
        cos_milli(a + TWO_PI_MILLI - HALF_PI_MILLI)
    }
}

/// Computes the facing direction of a heading, the vector the locomotion
/// controller accelerates along (the player transform's forward axis).
pub fn forward_from_yaw(yaw: i64) -> (r: MilliVec3)
    requires
        0 <= yaw < TWO_PI_MILLI,
    ensures
        r == forward_spec(yaw as int),
        r.in_bounds(FORWARD_UNIT as int),
        r.y == 0,
{
    let s: i64 = sin_milli(yaw);
    let c: i64 = cos_milli(yaw);
    MilliVec3 { x: -s, y: 0, z: -c }
}

/// The values the host engine hands the simulation for one tick: the
/// summed pointer-motion delta and the elapsed time.
#[derive(Clone, Copy, PartialEq, Eq, Structural, Debug)]
pub struct FrameInput {
    /// Sum of the tick's raw pointer-motion deltas, in thousandths of a
    /// pointer count.
    pub pointer_delta: MilliVec2,
    /// Elapsed time of the tick, in thousandths of a second.
    pub dt: i64,
}

impl FrameInput {
    /// A tick takes time, and the pointer cannot cross a million counts in
    /// one tick.
    pub open spec fn wf(self) -> bool {
        &&& abs_val(self.pointer_delta.x as int) <= POINTER_DELTA_LIMIT as int
        &&& abs_val(self.pointer_delta.y as int) <= POINTER_DELTA_LIMIT as int
        &&& 0 < self.dt <= DT_LIMIT
    }
}

/// One whole simulation step before collision resolution, the stages in
/// their contracted order: mouse aggregation, camera orientation, the
/// locomotion controller (along the freshly turned facing), then the
/// kinematic integrator, whose translation request is returned for the
/// engine's character controller. Grounded-state feedback
/// ([`read_result_system`]) follows separately, after the engine has
/// resolved collisions.
pub fn simulation_tick(
    mouse: &mut MouseMovement,
    facing: &mut PlayerFacing,
    camera: &mut PlayerCamera,
    player: &mut PlayerMovement,
    input: FrameInput,
    settings: &crate::input::InputSettings,
) -> (translation: MilliVec3)
    requires
        old(mouse).wf(),
        old(facing).wf(),
        old(camera).wf(),
        old(player).wf(),
        input.wf(),
        settings.wf(),
    ensures
        *final(mouse) == mouse_update_spec(*old(mouse), input.pointer_delta),
        (*final(facing), *final(camera)) == rotate_update_spec(
            *old(facing),
            *old(camera),
            input.pointer_delta,
            settings.camera_sensitivity as int,
        ),
        *final(player) == kinematics_update_spec(
            locomotion_update_spec(
                *old(player),
                final(camera).pitch as int,
                forward_spec(final(facing).yaw as int),
                *final(mouse),
                input.dt as int,
            ),
            input.dt as int,
        ),
        translation == scaled_dir(final(player).desired_velocity, input.dt as int),
        final(mouse).wf(),
        final(facing).wf(),
        final(camera).wf(),
        final(player).wf(),
{
    process_mouse_movement(mouse, input.pointer_delta);
    rotate_player(facing, camera, input.pointer_delta, settings.camera_sensitivity);
    let forward: MilliVec3 = forward_from_yaw(facing.yaw);
    player_move_input(player, camera, forward, mouse, input.dt);
    player_kinematics(player, input.dt)
}

/// Grounded-state feedback stage, run strictly after the engine's
/// collision-resolution phase: copies the engine-reported grounded flag
/// into the movement state for the next tick (a one-tick lag between
/// physical contact and the logical flag is accepted behaviour).
pub fn read_result_system(player: &mut PlayerMovement, engine_grounded: bool)
    requires
        old(player).wf(),
    ensures
        *final(player) == (PlayerMovement { grounded: engine_grounded, ..*old(player) }),
        final(player).wf(),
{
    player.grounded = engine_grounded;
}

} // verus!
